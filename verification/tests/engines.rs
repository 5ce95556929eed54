use rainboltd::channel::{
    ChannelState, ChannelToken, CloseMessage, Commitment, CommitmentProof, CustomerState,
    MerchantState, Payment, PublicKey, RevokeToken, Signature,
};
use rainboltd::error::ProtocolError;
use rainboltd::maker::{
    EstablishTokens, Maker, MakerPhase, MakerState, MerchantSetup, PaymentVerified,
    RevocationVerified,
};
use rainboltd::message::{
    GeneratePaymentTokenRequest, GeneratePaymentTokenResponse, OpenChannelRequest,
    OpenChannelResponse, PaymentRequest, PaymentResponse,
};
use rainboltd::taker::{
    CustomerSetup, PaymentGenerated, PendingPayment, Revocation, Taker, TakerPhase, TakerState,
};
use rainboltd::{MarketData, MarketPrice};

fn key(tag: u8) -> PublicKey {
    PublicKey { bytes: vec![2, tag, tag, tag] }
}

fn signature(tag: u8) -> Signature {
    Signature { bytes: vec![tag; 4] }
}

fn snapshot(usd: i64) -> MarketData {
    MarketData { bitcoin: MarketPrice { usd }, cosmos: MarketPrice { usd: 3 } }
}

fn merchant_state(step: u8) -> MerchantState {
    MerchantState { pk: key(1), secret: vec![0xaa, step] }
}

fn customer_state(step: u8) -> CustomerState {
    CustomerState { pk_c: key(7), wpk: key(8 + step), secret: vec![0xcc, step] }
}

fn merchant_setup() -> MerchantSetup {
    MerchantSetup {
        channel_token: ChannelToken { pk_c: None, pk_m: key(1), params: vec![9, 9] },
        channel_state: ChannelState {
            name: "Channel A -> B".to_string(),
            pay_init: false,
            channel_established: false,
            third_party: false,
            params: vec![5],
        },
        merchant_state: merchant_state(0),
    }
}

fn customer_setup() -> CustomerSetup {
    CustomerSetup {
        customer_state: customer_state(0),
        root_commitment: Commitment { bytes: vec![0x10, 0x11] },
        root_commitment_proof: CommitmentProof { bytes: vec![0x20] },
    }
}

fn new_taker(maker: &MakerState, margin: i64, size: i64) -> TakerState {
    TakerState::init(
        margin,
        size,
        maker.channel_state.clone(),
        maker.channel_token.clone(),
        customer_setup(),
    )
    .unwrap()
}

fn tokens() -> EstablishTokens {
    EstablishTokens { close_token: signature(0x31), pay_token: signature(0x32) }
}

/// A maker and a taker with an established channel and the two prices seen.
fn established(margin: i64, size: i64, first: i64, second: i64) -> (MakerState, TakerState) {
    let mut maker = MakerState::init(margin, merchant_setup());
    let mut taker = new_taker(&maker, margin, size);
    let response = maker.recv_open_channel_req(taker.send_open_channel_req(), Some(tokens())).unwrap();
    taker.recv_open_channel_res(response, Some(customer_state(1))).unwrap();
    for price in [first, second] {
        maker.update_market_data(snapshot(price));
        taker.update_market_data(snapshot(price));
    }
    (maker, taker)
}

fn generated(amount: i64) -> PaymentGenerated {
    PaymentGenerated {
        payment_proof: Payment { amount, proof: vec![0x40, 0x41] },
        customer_state: customer_state(2),
    }
}

fn payment_verified() -> PaymentVerified {
    PaymentVerified { close_token: signature(0x51), merchant_state: merchant_state(1) }
}

fn revocation() -> Revocation {
    Revocation { revoke_token: RevokeToken { bytes: vec![0x60] }, customer_state: customer_state(3) }
}

fn revocation_verified() -> RevocationVerified {
    RevocationVerified { payment_token: signature(0x71), merchant_state: merchant_state(2) }
}

#[test]
fn new_maker_has_its_margin_and_no_channel() {
    let maker = MakerState::init(1000, merchant_setup());
    assert!(maker.channel_id.is_none());
    assert!(maker.channel_token.pk_c.is_none());
    assert_eq!(maker.channel_token.pk_m.bytes, key(1).bytes);
    assert_eq!(maker.channel_state.name, "Channel A -> B");
    assert_eq!(maker.merchant_state.secret, vec![0xaa, 0]);
    assert_eq!(maker.initial_margin, 1000);
    assert_eq!(maker.available_margin, 1000);
    assert_eq!(maker.order_size, None);
    assert_eq!(maker.market_data, None);
    assert_eq!(maker.prev_market_data, None);
}

#[test]
fn new_taker_binds_its_key_into_the_token() {
    let maker = MakerState::init(1000, merchant_setup());
    let taker = new_taker(&maker, 700, 500);
    assert_eq!(taker.channel_token.pk_c.as_ref().unwrap().bytes, key(7).bytes);
    assert_eq!(taker.channel_token.pk_m.bytes, key(1).bytes);
    assert_eq!(taker.channel_token.params, vec![9, 9]);
    assert_eq!(taker.channel_id.customer_key.bytes, key(7).bytes);
    assert_eq!(taker.channel_id.merchant_key.bytes, key(1).bytes);
    assert_eq!(taker.channel_id.params, vec![9, 9]);
    assert_eq!(taker.initial_margin, 700);
    assert_eq!(taker.available_margin, 700);
    assert_eq!(taker.order_size, 500);
    assert!(taker.new_customer_state.is_none());
    assert!(taker.revoke_token.is_none());
    assert!(!taker.channel_state.channel_established);
    assert_eq!(taker.root_commitment.bytes, vec![0x10, 0x11]);
    assert_eq!(taker.root_commitment_proof.bytes, vec![0x20]);
    assert_eq!(taker.market_data, None);
}

#[test]
fn taker_refuses_a_token_that_is_bound() {
    let mut setup = merchant_setup();
    setup.channel_token.pk_c = Some(key(3));
    let res = TakerState::init(1, 1, setup.channel_state, setup.channel_token, customer_setup());
    assert_eq!(res.err(), Some(ProtocolError::AlreadyBound));
}

#[test]
fn taker_refuses_a_channel_that_is_established() {
    let mut setup = merchant_setup();
    setup.channel_state.channel_established = true;
    let res = TakerState::init(1, 1, setup.channel_state, setup.channel_token, customer_setup());
    assert_eq!(res.err(), Some(ProtocolError::AlreadyEstablished));
}

#[test]
fn token_binds_one_key_only() {
    let mut token = ChannelToken { pk_c: None, pk_m: key(1), params: vec![4] };
    assert!(token.compute_channel_id().is_none());
    assert_eq!(token.set_customer_pk(key(2)), Ok(()));
    assert_eq!(token.set_customer_pk(key(3)), Err(ProtocolError::AlreadyBound));
    assert_eq!(token.pk_c.as_ref().unwrap().bytes, key(2).bytes);
    let id = token.compute_channel_id().unwrap();
    assert_eq!(id.merchant_key.bytes, key(1).bytes);
    assert_eq!(id.customer_key.bytes, key(2).bytes);
    assert_eq!(id.params, vec![4]);
}

#[test]
fn open_channel_request_carries_the_takers_values() {
    let maker = MakerState::init(1000, merchant_setup());
    let taker = new_taker(&maker, 700, 500);
    let req = taker.send_open_channel_req();
    assert_eq!(req.customer_public_key.bytes, key(7).bytes);
    assert_eq!(req.root_commitment.bytes, vec![0x10, 0x11]);
    assert_eq!(req.root_commitment_proof.bytes, vec![0x20]);
    assert_eq!(req.margin, 700);
    assert_eq!(req.order_size, 500);
}

#[test]
fn establishment_gives_both_the_same_identity() {
    let mut maker = MakerState::init(1000, merchant_setup());
    let mut taker = new_taker(&maker, 700, 500);
    let response = maker.recv_open_channel_req(taker.send_open_channel_req(), Some(tokens())).unwrap();
    assert_eq!(response.close_token.bytes, signature(0x31).bytes);
    assert_eq!(response.pay_token.bytes, signature(0x32).bytes);
    assert_eq!(maker.order_size, Some(500));
    assert_eq!(maker.available_margin, 1000);
    let id = maker.channel_id.clone().unwrap();
    assert_eq!(id.merchant_key.bytes, taker.channel_id.merchant_key.bytes);
    assert_eq!(id.customer_key.bytes, taker.channel_id.customer_key.bytes);
    assert_eq!(id.params, taker.channel_id.params);
    assert_eq!(maker.channel_token.pk_c.as_ref().unwrap().bytes, key(7).bytes);

    assert_eq!(taker.recv_open_channel_res(response, Some(customer_state(1))), Ok(()));
    assert!(taker.channel_state.channel_established);
    assert_eq!(taker.customer_state.secret, vec![0xcc, 1]);
    assert_eq!(taker.available_margin, 700);
}

#[test]
fn maker_refuses_a_rejected_proof_and_stays() {
    let mut maker = MakerState::init(1000, merchant_setup());
    let taker = new_taker(&maker, 700, 500);
    let res = maker.recv_open_channel_req(taker.send_open_channel_req(), None);
    assert_eq!(res.err(), Some(ProtocolError::EstablishmentFailed));
    assert!(maker.channel_id.is_none());
    assert!(maker.channel_token.pk_c.is_none());
    assert_eq!(maker.order_size, None);
}

#[test]
fn maker_opens_one_channel_only() {
    let (mut maker, taker) = established(1000, 500, 20000, 20500);
    let res = maker.recv_open_channel_req(taker.send_open_channel_req(), Some(tokens()));
    assert_eq!(res.err(), Some(ProtocolError::AlreadyBound));
    assert_eq!(maker.order_size, Some(500));
}

#[test]
fn taker_refuses_tokens_that_do_not_verify() {
    let mut maker = MakerState::init(1000, merchant_setup());
    let mut taker = new_taker(&maker, 700, 500);
    let response = maker.recv_open_channel_req(taker.send_open_channel_req(), Some(tokens())).unwrap();
    assert_eq!(
        taker.recv_open_channel_res(response.clone(), None),
        Err(ProtocolError::EstablishmentFailed)
    );
    assert!(!taker.channel_state.channel_established);
    assert_eq!(taker.customer_state.secret, vec![0xcc, 0]);
    assert_eq!(taker.recv_open_channel_res(response.clone(), Some(customer_state(1))), Ok(()));
    assert_eq!(
        taker.recv_open_channel_res(response, Some(customer_state(1))),
        Err(ProtocolError::AlreadyEstablished)
    );
}

#[test]
fn market_data_shifts_current_to_previous() {
    let mut maker = MakerState::init(1000, merchant_setup());
    let mut taker = new_taker(&maker, 700, 500);
    maker.update_market_data(snapshot(1));
    taker.update_market_data(snapshot(1));
    assert_eq!(maker.market_data, Some(snapshot(1)));
    assert_eq!(maker.prev_market_data, None);
    maker.update_market_data(snapshot(2));
    taker.update_market_data(snapshot(2));
    maker.update_market_data(snapshot(3));
    taker.update_market_data(snapshot(3));
    assert_eq!(maker.market_data, Some(snapshot(3)));
    assert_eq!(maker.prev_market_data, Some(snapshot(2)));
    assert_eq!(taker.market_data, Some(snapshot(3)));
    assert_eq!(taker.prev_market_data, Some(snapshot(2)));
    assert_eq!(maker.available_margin, 1000);
    assert_eq!(taker.available_margin, 700);
}

#[test]
fn both_engines_expect_twelve() {
    let (maker, taker) = established(1000, 500, 20000, 20500);
    assert_eq!(maker.expected_payment(), Ok(12));
    assert_eq!(taker.expected_payment(), Ok(12));
}

#[test]
fn payment_round_moves_the_margins_oppositely() {
    let (mut maker, mut taker) = established(1000, 500, 20000, 20500);
    let amount = taker.expected_payment().unwrap();
    assert_eq!(amount, 12);

    let payment = taker.send_payment_req(generated(amount)).unwrap();
    assert_eq!(payment.payment_proof.amount, 12);
    assert_eq!(payment.payment_proof.proof, vec![0x40, 0x41]);
    assert_eq!(taker.available_margin, 1000);
    let pending: &PendingPayment = taker.new_customer_state.as_ref().unwrap();
    assert_eq!(pending.amount, 12);
    assert_eq!(pending.customer_state.secret, vec![0xcc, 2]);

    assert_eq!(maker.check_payment_req(&payment), Ok(12));
    let answer = maker.recv_payment_req(payment, Some(payment_verified())).unwrap();
    assert_eq!(answer.close_token.bytes, signature(0x51).bytes);
    assert_eq!(maker.available_margin, 1012);
    assert_eq!(maker.merchant_state.secret, vec![0xaa, 1]);

    assert_eq!(taker.recv_payment_res(answer, Some(revocation())), Ok(()));
    assert_eq!(taker.available_margin, 988);
    assert!(taker.new_customer_state.is_none());
    assert_eq!(taker.customer_state.secret, vec![0xcc, 3]);
    assert_eq!(taker.revoke_token.as_ref().unwrap().bytes, vec![0x60]);

    let token_request = taker.send_generate_payment_token_req().unwrap();
    assert_eq!(token_request.revoke_token.bytes, vec![0x60]);
    assert_eq!(taker.revoke_token.as_ref().unwrap().bytes, vec![0x60]);

    let token_answer = maker
        .recv_generate_payment_token_req(token_request, Some(revocation_verified()))
        .unwrap();
    assert_eq!(token_answer.payment_token.bytes, signature(0x71).bytes);
    assert_eq!(maker.merchant_state.secret, vec![0xaa, 2]);
    assert_eq!(maker.available_margin, 1012);

    assert_eq!(taker.recv_generate_payment_token_res(token_answer, Some(customer_state(4))), Ok(()));
    assert!(taker.revoke_token.is_none());
    assert_eq!(taker.customer_state.secret, vec![0xcc, 4]);
    assert_eq!(taker.available_margin, 988);

    let id = maker.channel_id.clone().unwrap();
    assert_eq!(id.customer_key.bytes, taker.channel_id.customer_key.bytes);
    assert_eq!(id.merchant_key.bytes, taker.channel_id.merchant_key.bytes);
    assert_eq!(id.params, taker.channel_id.params);
    assert_eq!(
        (maker.available_margin - 1000) + (taker.available_margin - 1000),
        0
    );
    // a second round can follow
    assert_eq!(taker.expected_payment(), Ok(12));
}

#[test]
fn falling_price_pays_the_taker() {
    let (mut maker, mut taker) = established(1000, 5000, 20500, 20000);
    let payment = taker.send_payment_req(generated(-121)).unwrap();
    let answer = maker.recv_payment_req(payment, Some(payment_verified())).unwrap();
    taker.recv_payment_res(answer, Some(revocation())).unwrap();
    assert_eq!(maker.available_margin, 879);
    assert_eq!(taker.available_margin, 1121);
}

#[test]
fn mismatched_amount_is_refused_and_nothing_moves() {
    for delta in [1i64, -1, 100, -12, i64::MAX - 12] {
        let (mut maker, _taker) = established(1000, 500, 20000, 20500);
        let req = PaymentRequest { payment_proof: Payment { amount: 12 + delta, proof: vec![1] } };
        assert_eq!(
            maker.check_payment_req(&req),
            Err(ProtocolError::SettlementMismatch { expected: 12, received: 12 + delta })
        );
        let res = maker.recv_payment_req(req, Some(payment_verified()));
        assert_eq!(
            res.err(),
            Some(ProtocolError::SettlementMismatch { expected: 12, received: 12 + delta })
        );
        assert_eq!(maker.available_margin, 1000);
        assert_eq!(maker.merchant_state.secret, vec![0xaa, 0]);
    }
}

#[test]
fn payment_whose_proof_fails_is_refused() {
    let (mut maker, mut taker) = established(1000, 500, 20000, 20500);
    let payment = taker.send_payment_req(generated(12)).unwrap();
    let res = maker.recv_payment_req(payment, None);
    assert_eq!(res.err(), Some(ProtocolError::InvalidPayment));
    assert_eq!(maker.available_margin, 1000);
    assert_eq!(maker.merchant_state.secret, vec![0xaa, 0]);
}

#[test]
fn maker_needs_an_order_and_both_prices() {
    let mut maker = MakerState::init(1000, merchant_setup());
    assert_eq!(maker.expected_payment(), Err(ProtocolError::NotEstablished));
    let req = PaymentRequest { payment_proof: Payment { amount: 0, proof: vec![] } };
    assert_eq!(
        maker.recv_payment_req(req, Some(payment_verified())).err(),
        Some(ProtocolError::NotEstablished)
    );
    let taker = new_taker(&maker, 700, 500);
    maker.recv_open_channel_req(taker.send_open_channel_req(), Some(tokens())).unwrap();
    assert_eq!(maker.expected_payment(), Err(ProtocolError::MissingMarketData));
    maker.update_market_data(snapshot(20000));
    assert_eq!(maker.expected_payment(), Err(ProtocolError::MissingMarketData));
    maker.update_market_data(snapshot(20500));
    assert_eq!(maker.expected_payment(), Ok(12));
    maker.update_market_data(snapshot(0));
    maker.update_market_data(snapshot(5));
    assert_eq!(maker.expected_payment(), Err(ProtocolError::InvalidMarketData));
}

#[test]
fn taker_needs_an_established_channel_and_both_prices() {
    let mut maker = MakerState::init(1000, merchant_setup());
    let mut taker = new_taker(&maker, 700, 500);
    taker.update_market_data(snapshot(20000));
    taker.update_market_data(snapshot(20500));
    assert_eq!(taker.expected_payment(), Err(ProtocolError::NotEstablished));
    assert_eq!(
        taker.send_payment_req(generated(12)).err(),
        Some(ProtocolError::NotEstablished)
    );
    assert_eq!(
        taker.get_close_message(CloseMessage { bytes: vec![1] }).err(),
        Some(ProtocolError::NotEstablished)
    );
    let response = maker.recv_open_channel_req(taker.send_open_channel_req(), Some(tokens())).unwrap();
    taker.recv_open_channel_res(response, Some(customer_state(1))).unwrap();
    assert_eq!(taker.expected_payment(), Ok(12));

    let (_, mut fresh) = established(1000, 500, 20000, 20500);
    fresh.market_data = None;
    assert_eq!(fresh.expected_payment(), Err(ProtocolError::MissingMarketData));
    assert_eq!(
        fresh.send_payment_req(generated(12)).err(),
        Some(ProtocolError::MissingMarketData)
    );
    assert!(fresh.new_customer_state.is_none());
}

#[test]
fn taker_sends_one_payment_at_a_time() {
    let (mut maker, mut taker) = established(1000, 500, 20000, 20500);
    let payment = taker.send_payment_req(generated(12)).unwrap();
    assert_eq!(taker.expected_payment(), Err(ProtocolError::PaymentInFlight));
    assert_eq!(
        taker.send_payment_req(generated(12)).err(),
        Some(ProtocolError::PaymentInFlight)
    );
    let answer = maker.recv_payment_req(payment, Some(payment_verified())).unwrap();
    taker.recv_payment_res(answer, Some(revocation())).unwrap();
    // the revoke token waits: the round is not over
    assert_eq!(
        taker.send_payment_req(generated(12)).err(),
        Some(ProtocolError::PaymentInFlight)
    );
}

#[test]
fn taker_refuses_a_proof_for_another_amount() {
    let (_, mut taker) = established(1000, 500, 20000, 20500);
    assert_eq!(
        taker.send_payment_req(generated(13)).err(),
        Some(ProtocolError::SettlementMismatch { expected: 12, received: 13 })
    );
    assert!(taker.new_customer_state.is_none());
}

#[test]
fn answer_without_a_payment_in_flight_is_refused() {
    let (_, mut taker) = established(1000, 500, 20000, 20500);
    let answer = PaymentResponse { close_token: signature(1) };
    assert_eq!(
        taker.recv_payment_res(answer, Some(revocation())),
        Err(ProtocolError::NoPendingPayment)
    );
    assert!(taker.revoke_token.is_none());
    assert_eq!(taker.available_margin, 1000);
}

#[test]
fn close_token_that_fails_keeps_the_payment_pending() {
    let (mut maker, mut taker) = established(1000, 500, 20000, 20500);
    let payment = taker.send_payment_req(generated(12)).unwrap();
    let answer = maker.recv_payment_req(payment, Some(payment_verified())).unwrap();
    assert_eq!(
        taker.recv_payment_res(answer.clone(), None),
        Err(ProtocolError::InvalidCloseToken)
    );
    assert_eq!(taker.available_margin, 1000);
    assert!(taker.new_customer_state.is_some());
    assert!(taker.revoke_token.is_none());
    assert_eq!(taker.recv_payment_res(answer, Some(revocation())), Ok(()));
    assert_eq!(taker.available_margin, 988);
}

#[test]
fn token_request_needs_a_revoke_token() {
    let (_, mut taker) = established(1000, 500, 20000, 20500);
    assert_eq!(
        taker.send_generate_payment_token_req().err(),
        Some(ProtocolError::NoRevokeToken)
    );
    let answer = GeneratePaymentTokenResponse { payment_token: signature(1) };
    assert_eq!(
        taker.recv_generate_payment_token_res(answer, Some(customer_state(9))),
        Err(ProtocolError::NoRevokeToken)
    );
    assert_eq!(taker.customer_state.secret, vec![0xcc, 1]);
}

#[test]
fn pay_token_that_fails_keeps_the_revoke_token() {
    let (mut maker, mut taker) = established(1000, 500, 20000, 20500);
    let payment = taker.send_payment_req(generated(12)).unwrap();
    let answer = maker.recv_payment_req(payment, Some(payment_verified())).unwrap();
    taker.recv_payment_res(answer, Some(revocation())).unwrap();
    let token_answer = GeneratePaymentTokenResponse { payment_token: signature(1) };
    assert_eq!(
        taker.recv_generate_payment_token_res(token_answer, None),
        Err(ProtocolError::InvalidPaymentToken)
    );
    assert!(taker.revoke_token.is_some());
    assert_eq!(taker.customer_state.secret, vec![0xcc, 3]);
}

#[test]
fn revocation_that_fails_is_reported() {
    let (mut maker, _) = established(1000, 500, 20000, 20500);
    let req = GeneratePaymentTokenRequest { revoke_token: RevokeToken { bytes: vec![1] } };
    assert_eq!(
        maker.recv_generate_payment_token_req(req.clone(), None).err(),
        Some(ProtocolError::InvalidRevocation)
    );
    assert_eq!(maker.merchant_state.secret, vec![0xaa, 0]);
    let mut unbound = MakerState::init(1, merchant_setup());
    assert_eq!(
        unbound.recv_generate_payment_token_req(req, Some(revocation_verified())).err(),
        Some(ProtocolError::NotEstablished)
    );
}

#[test]
fn margins_that_would_overflow_are_refused() {
    let (mut maker, mut taker) = established(i64::MAX - 5, 500, 20000, 20500);
    let req = PaymentRequest { payment_proof: Payment { amount: 12, proof: vec![] } };
    assert_eq!(maker.check_payment_req(&req), Err(ProtocolError::MarginOutOfRange));
    assert_eq!(
        maker.recv_payment_req(req, Some(payment_verified())).err(),
        Some(ProtocolError::MarginOutOfRange)
    );
    assert_eq!(maker.available_margin, i64::MAX - 5);

    taker.available_margin = i64::MIN + 5;
    assert_eq!(
        taker.send_payment_req(generated(12)).err(),
        Some(ProtocolError::MarginOutOfRange)
    );
    taker.available_margin = 0;
    taker.send_payment_req(generated(12)).unwrap();
    taker.available_margin = i64::MIN + 5;
    assert_eq!(
        taker.recv_payment_res(PaymentResponse { close_token: signature(1) }, Some(revocation())),
        Err(ProtocolError::MarginOutOfRange)
    );
    assert!(taker.new_customer_state.is_some());
}

#[test]
fn settlement_out_of_range_reaches_the_engines() {
    let (maker, taker) = established(1000, i64::MAX, 1, 3);
    assert_eq!(maker.expected_payment(), Err(ProtocolError::SettlementOutOfRange));
    assert_eq!(taker.expected_payment(), Err(ProtocolError::SettlementOutOfRange));
}

#[test]
fn close_message_is_released_once_established() {
    let (mut maker, mut taker) = established(1000, 500, 20000, 20500);
    let signed = CloseMessage { bytes: vec![0x77, 0x78] };
    assert_eq!(taker.get_close_message(signed.clone()).unwrap().bytes, vec![0x77, 0x78]);
    // also in the middle of a round
    let payment = taker.send_payment_req(generated(12)).unwrap();
    assert_eq!(taker.get_close_message(signed.clone()).unwrap().bytes, vec![0x77, 0x78]);
    let answer = maker.recv_payment_req(payment, Some(payment_verified())).unwrap();
    taker.recv_payment_res(answer, Some(revocation())).unwrap();
    assert_eq!(taker.get_close_message(signed).unwrap().bytes, vec![0x77, 0x78]);
}

#[test]
fn copies_of_artifacts_hold_the_same_bytes() {
    assert_eq!(key(4).clone().bytes, key(4).bytes);
    assert_eq!(Commitment { bytes: vec![1, 2] }.clone().bytes, vec![1, 2]);
    assert_eq!(CommitmentProof { bytes: vec![3] }.clone().bytes, vec![3]);
    assert_eq!(signature(5).clone().bytes, vec![5; 4]);
    assert_eq!(RevokeToken { bytes: vec![6] }.clone().bytes, vec![6]);
    assert_eq!(CloseMessage { bytes: vec![7] }.clone().bytes, vec![7]);
    let req = OpenChannelRequest {
        customer_public_key: key(1),
        root_commitment: Commitment { bytes: vec![1] },
        root_commitment_proof: CommitmentProof { bytes: vec![2] },
        margin: 3,
        order_size: 4,
    };
    let copy = req.clone();
    assert_eq!(copy.margin, 3);
    assert_eq!(copy.order_size, 4);
    let response = OpenChannelResponse { close_token: signature(1), pay_token: signature(2) };
    assert_eq!(response.clone().pay_token.bytes, vec![2; 4]);
}

#[test]
fn engines_walk_through_their_phases() {
    let mut maker = MakerState::init(1000, merchant_setup());
    assert_eq!(maker.phase(), MakerPhase::AwaitingCounterparty);
    let mut taker = new_taker(&maker, 1000, 500);
    assert_eq!(taker.phase(), TakerPhase::Establishing);

    let response = maker.recv_open_channel_req(taker.send_open_channel_req(), Some(tokens())).unwrap();
    assert_eq!(maker.phase(), MakerPhase::Established);
    assert_eq!(taker.phase(), TakerPhase::Establishing);
    taker.recv_open_channel_res(response, Some(customer_state(1))).unwrap();
    assert_eq!(taker.phase(), TakerPhase::Established);

    for price in [20000, 20500] {
        maker.update_market_data(snapshot(price));
        taker.update_market_data(snapshot(price));
    }
    assert_eq!(taker.phase(), TakerPhase::Established);

    let payment = taker.send_payment_req(generated(12)).unwrap();
    assert_eq!(taker.phase(), TakerPhase::PaymentSent);
    let answer = maker.recv_payment_req(payment, Some(payment_verified())).unwrap();
    assert_eq!(maker.phase(), MakerPhase::Established);
    taker.recv_payment_res(answer, Some(revocation())).unwrap();
    assert_eq!(taker.phase(), TakerPhase::Revoking);
    let token_request = taker.send_generate_payment_token_req().unwrap();
    assert_eq!(taker.phase(), TakerPhase::Revoking);
    let token_answer = maker
        .recv_generate_payment_token_req(token_request, Some(revocation_verified()))
        .unwrap();
    taker.recv_generate_payment_token_res(token_answer, Some(customer_state(4))).unwrap();
    assert_eq!(taker.phase(), TakerPhase::Established);
    assert_eq!(maker.phase(), MakerPhase::Established);
}
