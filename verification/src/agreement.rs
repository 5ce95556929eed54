//! What holds between a maker and a taker that run the protocol together:
//! they agree on the channel's identity and on every amount.

use vstd::prelude::*;
use crate::MarketData;
use crate::channel::{ChannelState, ChannelToken, CustomerState};
use crate::error::ProtocolError;
use crate::maker::{
    EstablishTokens,
    MakerPhase,
    MakerState,
    MerchantSetup,
    PaymentVerified,
    RevocationVerified,
};
use crate::message::{
    GeneratePaymentTokenRequest,
    GeneratePaymentTokenResponse,
    OpenChannelRequest,
    OpenChannelResponse,
    PaymentRequest,
    PaymentResponse,
};
use crate::taker::{CustomerSetup, PaymentGenerated, Revocation, TakerPhase, TakerState};

verus! {

/// Maker and taker stand in the same channel: the maker has bound the
/// identity that the taker holds, and the order size that the taker took.
pub open spec fn same_channel(maker: MakerState, taker: TakerState) -> bool {
    &&& maker.channel_id matches Some(id)
    &&& id@ == taker.channel_id@
    &&& maker.order_size == Some(taker.order_size)
}

/// Maker and taker have seen the same prices.
pub open spec fn same_prices(maker: MakerState, taker: TakerState) -> bool {
    &&& maker.market_data == taker.market_data
    &&& maker.prev_market_data == taker.prev_market_data
}

/// The life of a taker's channel: every step that succeeds starts in one
/// phase and ends in the next, a step that is refused leaves the taker where
/// it was, and a new price moves it nowhere.
pub proof fn lemma_taker_phases(
    taker: TakerState,
    next: TakerState,
    established: Option<CustomerState>,
    generated: PaymentGenerated,
    revocation: Option<Revocation>,
    token_verified: Option<CustomerState>,
    snapshot: MarketData,
    done: Result<(), ProtocolError>,
    sent: Result<PaymentRequest, ProtocolError>,
)
    requires
        taker.wf(),
    ensures
        taker.establishment_outcome(established, next, done) ==> if done is Ok {
            taker.phase_of() == TakerPhase::Establishing && next.phase_of()
                == TakerPhase::Established
        } else {
            next == taker
        },
        taker.payment_sent_outcome(generated, next, sent) ==> if sent is Ok {
            taker.phase_of() == TakerPhase::Established && next.phase_of()
                == TakerPhase::PaymentSent
        } else {
            next == taker
        },
        taker.payment_answer_outcome(revocation, next, done) ==> if done is Ok {
            taker.phase_of() == TakerPhase::PaymentSent && next.phase_of() == TakerPhase::Revoking
        } else {
            next == taker
        },
        taker.payment_token_outcome(token_verified, next, done) ==> if done is Ok {
            taker.phase_of() == TakerPhase::Revoking && next.phase_of() == TakerPhase::Established
        } else {
            next == taker
        },
        taker.market_updated(snapshot, next) ==> next.phase_of() == taker.phase_of(),
{
}

/// The life of a maker's channel: a new maker awaits its taker, opening the
/// channel establishes it, and payments, revocations and new prices leave it
/// established; a step that is refused leaves the maker where it was.
pub proof fn lemma_maker_phases(
    maker: MakerState,
    next: MakerState,
    initial_margin: i64,
    setup: MerchantSetup,
    req: OpenChannelRequest,
    issued: Option<EstablishTokens>,
    opened: Result<OpenChannelResponse, ProtocolError>,
    payment: PaymentRequest,
    payment_verified: Option<PaymentVerified>,
    paid: Result<PaymentResponse, ProtocolError>,
    revocation_verified: Option<RevocationVerified>,
    revoked: Result<GeneratePaymentTokenResponse, ProtocolError>,
    snapshot: MarketData,
)
    requires
        maker.wf(),
    ensures
        MakerState::init_outcome(initial_margin, setup, next) ==> next.phase_of()
            == MakerPhase::AwaitingCounterparty,
        maker.open_channel_outcome(req, issued, next, opened) ==> if opened is Ok {
            maker.phase_of() == MakerPhase::AwaitingCounterparty && next.phase_of()
                == MakerPhase::Established
        } else {
            next == maker
        },
        maker.payment_outcome(payment, payment_verified, next, paid) ==> if paid is Ok {
            maker.phase_of() == MakerPhase::Established && next.phase_of()
                == MakerPhase::Established
        } else {
            next == maker
        },
        maker.payment_token_outcome(revocation_verified, next, revoked) ==> if revoked is Ok {
            maker.phase_of() == MakerPhase::Established && next.phase_of()
                == MakerPhase::Established
        } else {
            next == maker
        },
        maker.market_updated(snapshot, next) ==> next.phase_of() == maker.phase_of(),
{
}

/// A payment whose amount is not the amount that the maker computes is
/// refused as a mismatch, whatever its proof: the maker stays as it was and
/// no close token goes out.
pub proof fn lemma_mismatch_is_refused(
    maker: MakerState,
    req: PaymentRequest,
    verified: Option<PaymentVerified>,
    next: MakerState,
    res: Result<PaymentResponse, ProtocolError>,
)
    requires
        maker.payment_expected() matches Ok(expected) && expected != req.payment_proof.amount,
        maker.payment_outcome(req, verified, next, res),
    ensures
        res == Err::<PaymentResponse, ProtocolError>(
            (ProtocolError::SettlementMismatch {
                expected: maker.payment_expected()->Ok_0,
                received: req.payment_proof.amount,
            }),
        ),
        next == maker,
        next.available_margin == maker.available_margin,
{
}

/// Maker and taker that have seen the same prices in the same channel expect
/// the same payment, where each of them is ready for one.
pub proof fn lemma_same_payment_expected(maker: MakerState, taker: TakerState)
    requires
        same_channel(maker, taker),
        same_prices(maker, taker),
        taker.channel_state.channel_established,
        taker.new_customer_state is None,
        taker.revoke_token is None,
    ensures
        maker.payment_expected() == taker.payment_expected(),
{
}

/// A taker made from the maker's token and state, whose opening request the
/// maker accepts, stands in the same channel as the maker.
pub proof fn lemma_establishment_agrees(
    maker: MakerState,
    initial_margin: i64,
    order_size: i64,
    channel_state: ChannelState,
    channel_token: ChannelToken,
    setup: CustomerSetup,
    taker: TakerState,
    req: OpenChannelRequest,
    issued: Option<EstablishTokens>,
    maker_next: MakerState,
    response: OpenChannelResponse,
)
    requires
        channel_token.pk_m@ == maker.channel_token.pk_m@,
        channel_token.params@ == maker.channel_token.params@,
        TakerState::init_outcome(
            initial_margin,
            order_size,
            channel_state,
            channel_token,
            setup,
            Ok(taker),
        ),
        taker.open_channel_request(req),
        maker.open_channel_outcome(req, issued, maker_next, Ok(response)),
    ensures
        same_channel(maker_next, taker),
        maker_next.available_margin == maker.available_margin,
        taker.available_margin == initial_margin,
{
}

/// One payment round, from the taker's payment to the pay token for the next
/// one, moves the margins of maker and taker by the same amount in opposite
/// directions and keeps both in the channel they were in.
pub proof fn lemma_payment_round_agrees(
    maker: MakerState,
    taker: TakerState,
    generated: PaymentGenerated,
    taker_sent: TakerState,
    payment: PaymentRequest,
    payment_verified: Option<PaymentVerified>,
    maker_paid: MakerState,
    answer: PaymentResponse,
    revocation: Option<Revocation>,
    taker_revoked: TakerState,
    token_request: GeneratePaymentTokenRequest,
    revocation_verified: Option<RevocationVerified>,
    maker_done: MakerState,
    token_answer: GeneratePaymentTokenResponse,
    token_verified: Option<CustomerState>,
    taker_done: TakerState,
)
    requires
        same_channel(maker, taker),
        taker.payment_sent_outcome(generated, taker_sent, Ok(payment)),
        maker.payment_outcome(payment, payment_verified, maker_paid, Ok(answer)),
        taker_sent.payment_answer_outcome(revocation, taker_revoked, Ok(())),
        taker_revoked.payment_token_request(Ok(token_request)),
        maker_paid.payment_token_outcome(revocation_verified, maker_done, Ok(token_answer)),
        taker_revoked.payment_token_outcome(token_verified, taker_done, Ok(())),
    ensures
        same_channel(maker_done, taker_done),
        maker_done.available_margin - maker.available_margin == payment.payment_proof.amount,
        taker_done.available_margin - taker.available_margin == -payment.payment_proof.amount,
        maker.payment_expected() == Ok::<i64, ProtocolError>(payment.payment_proof.amount),
        taker.payment_expected() == Ok::<i64, ProtocolError>(payment.payment_proof.amount),
        taker_done.new_customer_state is None,
        taker_done.revoke_token is None,
{
}

/// The whole way: a taker is made from the maker's token and state, the
/// channel is opened, both see the same two prices, and one payment round is
/// run. Then both hold the same channel identity, and what the maker's margin
/// gained is what the taker's margin lost.
pub proof fn lemma_round_trip(
    maker: MakerState,
    initial_margin: i64,
    order_size: i64,
    setup: CustomerSetup,
    taker: TakerState,
    req: OpenChannelRequest,
    issued: Option<EstablishTokens>,
    maker_open: MakerState,
    response: OpenChannelResponse,
    established: Option<CustomerState>,
    taker_open: TakerState,
    first: MarketData,
    second: MarketData,
    maker_first: MakerState,
    maker_second: MakerState,
    taker_first: TakerState,
    taker_second: TakerState,
    generated: PaymentGenerated,
    taker_sent: TakerState,
    payment: PaymentRequest,
    payment_verified: Option<PaymentVerified>,
    maker_paid: MakerState,
    answer: PaymentResponse,
    revocation: Option<Revocation>,
    taker_revoked: TakerState,
    token_request: GeneratePaymentTokenRequest,
    revocation_verified: Option<RevocationVerified>,
    maker_done: MakerState,
    token_answer: GeneratePaymentTokenResponse,
    token_verified: Option<CustomerState>,
    taker_done: TakerState,
)
    requires
        TakerState::init_outcome(
            initial_margin,
            order_size,
            maker.channel_state,
            maker.channel_token,
            setup,
            Ok(taker),
        ),
        taker.open_channel_request(req),
        maker.open_channel_outcome(req, issued, maker_open, Ok(response)),
        taker.establishment_outcome(established, taker_open, Ok(())),
        maker_open.market_updated(first, maker_first),
        maker_first.market_updated(second, maker_second),
        taker_open.market_updated(first, taker_first),
        taker_first.market_updated(second, taker_second),
        taker_second.payment_sent_outcome(generated, taker_sent, Ok(payment)),
        maker_second.payment_outcome(payment, payment_verified, maker_paid, Ok(answer)),
        taker_sent.payment_answer_outcome(revocation, taker_revoked, Ok(())),
        taker_revoked.payment_token_request(Ok(token_request)),
        maker_paid.payment_token_outcome(revocation_verified, maker_done, Ok(token_answer)),
        taker_revoked.payment_token_outcome(token_verified, taker_done, Ok(())),
    ensures
        same_channel(maker_done, taker_done),
        maker_done.available_margin - maker.available_margin == payment.payment_proof.amount,
        taker_done.available_margin - initial_margin == -payment.payment_proof.amount,
        crate::math::payment_due(
            second.bitcoin.usd as int,
            first.bitcoin.usd as int,
            order_size as int,
        ) == Ok::<i64, ProtocolError>(payment.payment_proof.amount),
{
    lemma_establishment_agrees(
        maker,
        initial_margin,
        order_size,
        maker.channel_state,
        maker.channel_token,
        setup,
        taker,
        req,
        issued,
        maker_open,
        response,
    );
    assert(same_channel(maker_second, taker_second));
    lemma_payment_round_agrees(
        maker_second,
        taker_second,
        generated,
        taker_sent,
        payment,
        payment_verified,
        maker_paid,
        answer,
        revocation,
        taker_revoked,
        token_request,
        revocation_verified,
        maker_done,
        token_answer,
        token_verified,
        taker_done,
    );
}

} // verus!
