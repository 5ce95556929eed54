//! The taker's engine: the counter-party's side of a channel.
//!
//! As with the maker, the engine decides and the channel cryptography runs
//! beside it: each step takes what the cryptography returned, `None` where a
//! token did not verify.

use vstd::prelude::*;
use crate::MarketData;
use crate::channel::{
    ChannelId,
    ChannelState,
    ChannelToken,
    CloseMessage,
    Commitment,
    CommitmentProof,
    CustomerState,
    Payment,
    RevokeToken,
};
use crate::error::ProtocolError;
use crate::math::{compute_payment, payment_due};
use crate::message::{
    GeneratePaymentTokenRequest,
    GeneratePaymentTokenResponse,
    OpenChannelRequest,
    OpenChannelResponse,
    PaymentRequest,
    PaymentResponse,
};

verus! {

/// What the cryptography generates for a new taker: its secret material, and
/// the root commitment with its proof.
#[derive(Clone, Debug)]
pub struct CustomerSetup {
    pub customer_state: CustomerState,
    pub root_commitment: Commitment,
    pub root_commitment_proof: CommitmentProof,
}

/// A generated payment proof, with the secret state that the payment leads to.
#[derive(Clone, Debug)]
pub struct PaymentGenerated {
    pub payment_proof: Payment,
    pub customer_state: CustomerState,
}

/// A payment that was sent and not yet answered.
#[derive(Clone, Debug)]
pub struct PendingPayment {
    pub amount: i64,
    pub customer_state: CustomerState,
}

/// The revocation of the prior secret state: the revoke token, and the secret
/// state that is current from then on.
#[derive(Clone, Debug)]
pub struct Revocation {
    pub revoke_token: RevokeToken,
    pub customer_state: CustomerState,
}

/// Where a taker stands in the life of its channel.
#[derive(Clone, Copy, Debug, PartialEq, Eq, Structural)]
pub enum TakerPhase {
    /// The root commitment is generated; the maker's tokens are awaited.
    Establishing,
    /// The channel is established and no payment round is under way.
    Established,
    /// A payment is sent; the maker's answer is awaited.
    PaymentSent,
    /// The prior state is revoked; the next pay token is awaited.
    Revoking,
}

/// One taker's channel state.
#[derive(Clone, Debug)]
pub struct TakerState {
    pub channel_id: ChannelId,
    pub channel_token: ChannelToken,
    pub channel_state: ChannelState,
    pub customer_state: CustomerState,
    pub root_commitment: Commitment,
    pub root_commitment_proof: CommitmentProof,
    pub initial_margin: i64,
    pub order_size: i64,
    pub available_margin: i64,
    /// The payment in flight: present from the sending of a payment to the
    /// acceptance of its answer.
    pub new_customer_state: Option<PendingPayment>,
    /// Present from the acceptance of a payment's answer to the acceptance of
    /// the next pay token.
    pub revoke_token: Option<RevokeToken>,
    pub market_data: Option<MarketData>,
    pub prev_market_data: Option<MarketData>,
}

/// The steps of a taker.
pub trait Taker: Sized {
    fn init(
        initial_margin: i64,
        order_size: i64,
        channel_state: ChannelState,
        channel_token: ChannelToken,
        setup: CustomerSetup,
    ) -> Result<Self, ProtocolError>;

    fn send_open_channel_req(&self) -> OpenChannelRequest;

    fn recv_open_channel_res(
        &mut self,
        res: OpenChannelResponse,
        verified: Option<CustomerState>,
    ) -> Result<(), ProtocolError>;

    fn send_payment_req(&mut self, generated: PaymentGenerated) -> Result<
        PaymentRequest,
        ProtocolError,
    >;

    fn recv_payment_res(&mut self, res: PaymentResponse, revocation: Option<Revocation>) -> Result<
        (),
        ProtocolError,
    >;

    fn send_generate_payment_token_req(&mut self) -> Result<
        GeneratePaymentTokenRequest,
        ProtocolError,
    >;

    fn recv_generate_payment_token_res(
        &mut self,
        res: GeneratePaymentTokenResponse,
        verified: Option<CustomerState>,
    ) -> Result<(), ProtocolError>;

    fn get_close_message(&self, signed: CloseMessage) -> Result<CloseMessage, ProtocolError>;
}

impl TakerState {
    /// The identity is that of the token, and a round is at one place only:
    /// no payment is in flight while a revoke token waits, and neither is
    /// there before the channel is established.
    pub open spec fn wf(self) -> bool {
        &&& self.channel_token.identity() == Some(self.channel_id@)
        &&& !(self.new_customer_state is Some && self.revoke_token is Some)
        &&& self.new_customer_state is Some || self.revoke_token is Some
            ==> self.channel_state.channel_established
    }

    /// Where this taker stands.
    pub open spec fn phase_of(self) -> TakerPhase {
        if !self.channel_state.channel_established {
            TakerPhase::Establishing
        } else if self.new_customer_state is Some {
            TakerPhase::PaymentSent
        } else if self.revoke_token is Some {
            TakerPhase::Revoking
        } else {
            TakerPhase::Established
        }
    }

    /// Where this taker stands.
    pub fn phase(&self) -> (phase: TakerPhase)
        ensures
            phase == self.phase_of(),
    {
        if !self.channel_state.channel_established {
            TakerPhase::Establishing
        } else if self.new_customer_state.is_some() {
            TakerPhase::PaymentSent
        } else if self.revoke_token.is_some() {
            TakerPhase::Revoking
        } else {
            TakerPhase::Established
        }
    }

    /// The payment that this taker owes for the current period.
    pub open spec fn payment_expected(self) -> Result<i64, ProtocolError> {
        if !self.channel_state.channel_established {
            Err(ProtocolError::NotEstablished)
        } else if self.new_customer_state is Some || self.revoke_token is Some {
            Err(ProtocolError::PaymentInFlight)
        } else if self.market_data is None || self.prev_market_data is None {
            Err(ProtocolError::MissingMarketData)
        } else {
            payment_due(
                self.market_data->0.bitcoin.usd as int,
                self.prev_market_data->0.bitcoin.usd as int,
                self.order_size as int,
            )
        }
    }

    /// What the taker makes of a generated proof that claims `amount`: the
    /// amount to send, or why nothing is sent.
    pub open spec fn payment_checked(self, amount: i64) -> Result<i64, ProtocolError> {
        match self.payment_expected() {
            Err(e) => Err(e),
            Ok(expected) => if expected != amount {
                Err(ProtocolError::SettlementMismatch { expected, received: amount })
            } else if self.available_margin - expected < i64::MIN || self.available_margin
                - expected > i64::MAX {
                Err(ProtocolError::MarginOutOfRange)
            } else {
                Ok(expected)
            },
        }
    }

    /// `next` is this state with a new price snapshot installed.
    pub open spec fn market_updated(self, snapshot: MarketData, next: TakerState) -> bool {
        &&& next.market_data == Some(snapshot)
        &&& next.prev_market_data == self.market_data
        &&& next.channel_id == self.channel_id
        &&& next.channel_token == self.channel_token
        &&& next.channel_state == self.channel_state
        &&& next.customer_state == self.customer_state
        &&& next.root_commitment == self.root_commitment
        &&& next.root_commitment_proof == self.root_commitment_proof
        &&& next.initial_margin == self.initial_margin
        &&& next.order_size == self.order_size
        &&& next.available_margin == self.available_margin
        &&& next.new_customer_state == self.new_customer_state
        &&& next.revoke_token == self.revoke_token
    }

    /// `next` differs from this state in nothing but the secret material, the
    /// round's two places, the margin and the mark of establishment.
    pub open spec fn same_channel(self, next: TakerState) -> bool {
        &&& next.channel_id == self.channel_id
        &&& next.channel_token == self.channel_token
        &&& next.channel_state.name == self.channel_state.name
        &&& next.channel_state.pay_init == self.channel_state.pay_init
        &&& next.channel_state.third_party == self.channel_state.third_party
        &&& next.channel_state.params == self.channel_state.params
        &&& next.root_commitment == self.root_commitment
        &&& next.root_commitment_proof == self.root_commitment_proof
        &&& next.initial_margin == self.initial_margin
        &&& next.order_size == self.order_size
        &&& next.market_data == self.market_data
        &&& next.prev_market_data == self.prev_market_data
    }

    /// What a new taker is made of, or why none is made.
    pub open spec fn init_outcome(
        initial_margin: i64,
        order_size: i64,
        channel_state: ChannelState,
        channel_token: ChannelToken,
        setup: CustomerSetup,
        res: Result<TakerState, ProtocolError>,
    ) -> bool {
        if channel_token.pk_c is Some {
            res == Err::<TakerState, ProtocolError>(ProtocolError::AlreadyBound)
        } else if channel_state.channel_established {
            res == Err::<TakerState, ProtocolError>(ProtocolError::AlreadyEstablished)
        } else {
            &&& res matches Ok(taker)
            &&& taker.channel_id@ == channel_token.identity_with(setup.customer_state.pk_c@)
            &&& taker.channel_token.pk_c matches Some(key)
            &&& key@ == setup.customer_state.pk_c@
            &&& taker.channel_token.pk_m == channel_token.pk_m
            &&& taker.channel_token.params == channel_token.params
            &&& taker.channel_state == channel_state
            &&& taker.customer_state == setup.customer_state
            &&& taker.root_commitment == setup.root_commitment
            &&& taker.root_commitment_proof == setup.root_commitment_proof
            &&& taker.initial_margin == initial_margin
            &&& taker.order_size == order_size
            &&& taker.available_margin == initial_margin
            &&& taker.new_customer_state is None
            &&& taker.revoke_token is None
            &&& taker.market_data is None
            &&& taker.prev_market_data is None
        }
    }

    /// `req` is the request by which this taker opens its channel.
    pub open spec fn open_channel_request(self, req: OpenChannelRequest) -> bool {
        &&& req.customer_public_key@ == self.customer_state.pk_c@
        &&& req.root_commitment@ == self.root_commitment@
        &&& req.root_commitment_proof@ == self.root_commitment_proof@
        &&& req.margin == self.initial_margin
        &&& req.order_size == self.order_size
    }

    /// What becomes of this state when the maker's tokens arrive and the
    /// cryptography made `verified` of them.
    pub open spec fn establishment_outcome(
        self,
        verified: Option<CustomerState>,
        next: TakerState,
        done: Result<(), ProtocolError>,
    ) -> bool {
        if self.channel_state.channel_established {
            done == Err::<(), ProtocolError>(ProtocolError::AlreadyEstablished) && next == self
        } else if verified is None {
            done == Err::<(), ProtocolError>(ProtocolError::EstablishmentFailed) && next == self
        } else {
            &&& done is Ok
            &&& next.channel_state.channel_established
            &&& next.customer_state == verified->0
            &&& next.available_margin == self.available_margin
            &&& next.new_customer_state == self.new_customer_state
            &&& next.revoke_token == self.revoke_token
            &&& self.same_channel(next)
        }
    }

    /// What becomes of this state, and what is sent, when a payment proof was
    /// generated.
    pub open spec fn payment_sent_outcome(
        self,
        generated: PaymentGenerated,
        next: TakerState,
        res: Result<PaymentRequest, ProtocolError>,
    ) -> bool {
        match self.payment_checked(generated.payment_proof.amount) {
            Err(e) => res == Err::<PaymentRequest, ProtocolError>(e) && next == self,
            Ok(amount) => {
                &&& res matches Ok(request)
                &&& request.payment_proof == generated.payment_proof
                &&& next.new_customer_state == Some(
                    (PendingPayment { amount, customer_state: generated.customer_state }),
                )
                &&& next.revoke_token == self.revoke_token
                &&& next.customer_state == self.customer_state
                &&& next.available_margin == self.available_margin
                &&& next.channel_state == self.channel_state
                &&& self.same_channel(next)
            },
        }
    }

    /// What becomes of this state when the maker answers the payment in
    /// flight and the cryptography made `revocation` of the answer.
    pub open spec fn payment_answer_outcome(
        self,
        revocation: Option<Revocation>,
        next: TakerState,
        done: Result<(), ProtocolError>,
    ) -> bool {
        match self.new_customer_state {
            None => done == Err::<(), ProtocolError>(ProtocolError::NoPendingPayment) && next
                == self,
            Some(pending) => if revocation is None {
                done == Err::<(), ProtocolError>(ProtocolError::InvalidCloseToken) && next == self
            } else if self.available_margin - pending.amount < i64::MIN || self.available_margin
                - pending.amount > i64::MAX {
                done == Err::<(), ProtocolError>(ProtocolError::MarginOutOfRange) && next == self
            } else {
                &&& done is Ok
                &&& next.available_margin == self.available_margin - pending.amount
                &&& next.customer_state == revocation->0.customer_state
                &&& next.new_customer_state is None
                &&& next.revoke_token == Some(revocation->0.revoke_token)
                &&& next.channel_state == self.channel_state
                &&& self.same_channel(next)
            },
        }
    }

    /// `res` is the request by which this taker asks for the next pay token.
    pub open spec fn payment_token_request(
        self,
        res: Result<GeneratePaymentTokenRequest, ProtocolError>,
    ) -> bool {
        match self.revoke_token {
            None => res == Err::<GeneratePaymentTokenRequest, ProtocolError>(
                ProtocolError::NoRevokeToken,
            ),
            Some(token) => res matches Ok(request) && request.revoke_token@ == token@,
        }
    }

    /// What becomes of this state when the next pay token arrives and the
    /// cryptography made `verified` of it.
    pub open spec fn payment_token_outcome(
        self,
        verified: Option<CustomerState>,
        next: TakerState,
        done: Result<(), ProtocolError>,
    ) -> bool {
        if self.revoke_token is None {
            done == Err::<(), ProtocolError>(ProtocolError::NoRevokeToken) && next == self
        } else if verified is None {
            done == Err::<(), ProtocolError>(ProtocolError::InvalidPaymentToken) && next == self
        } else {
            &&& done is Ok
            &&& next.customer_state == verified->0
            &&& next.revoke_token is None
            &&& next.new_customer_state == self.new_customer_state
            &&& next.available_margin == self.available_margin
            &&& next.channel_state == self.channel_state
            &&& self.same_channel(next)
        }
    }

    /// Computes the payment of the current period from the two stored
    /// snapshots and the order size. A payment proof is generated for the
    /// amount that this returns.
    pub fn expected_payment(&self) -> (payment: Result<i64, ProtocolError>)
        ensures
            payment == self.payment_expected(),
    {
        if !self.channel_state.channel_established {
            return Err(ProtocolError::NotEstablished);
        }
        if self.new_customer_state.is_some() || self.revoke_token.is_some() {
            return Err(ProtocolError::PaymentInFlight);
        }
        match (self.market_data, self.prev_market_data) {
            (Some(current), Some(previous)) => compute_payment(current, previous, self.order_size),
            _ => Err(ProtocolError::MissingMarketData),
        }
    }

    /// Installs a new price snapshot; the one it replaces becomes the
    /// previous one.
    pub fn update_market_data(&mut self, snapshot: MarketData)
        ensures
            old(self).market_updated(snapshot, *final(self)),
            old(self).wf() ==> final(self).wf(),
    {
        self.prev_market_data = self.market_data;
        self.market_data = Some(snapshot);
    }
}

impl Taker for TakerState {
    /// A taker bound to the channel of a maker: the taker's key goes into the
    /// maker's token, and the channel identity is derived from it. Refused
    /// where the token holds a key already or the channel is marked
    /// established.
    fn init(
        initial_margin: i64,
        order_size: i64,
        channel_state: ChannelState,
        channel_token: ChannelToken,
        setup: CustomerSetup,
    ) -> (res: Result<Self, ProtocolError>)
        ensures
            TakerState::init_outcome(
                initial_margin,
                order_size,
                channel_state,
                channel_token,
                setup,
                res,
            ),
            res matches Ok(taker) ==> taker.wf(),
    {
        if channel_token.pk_c.is_some() {
            return Err(ProtocolError::AlreadyBound);
        }
        if channel_state.channel_established {
            return Err(ProtocolError::AlreadyEstablished);
        }
        let mut token: ChannelToken = channel_token;
        let key = setup.customer_state.pk_c.clone();
        let _ = token.set_customer_pk(key);
        let channel_id: ChannelId = match token.compute_channel_id() {
            Some(id) => id,
            None => {
                return Err(ProtocolError::AlreadyBound);
            },
        };
        Ok(
            TakerState {
                channel_id,
                channel_token: token,
                channel_state,
                customer_state: setup.customer_state,
                root_commitment: setup.root_commitment,
                root_commitment_proof: setup.root_commitment_proof,
                initial_margin,
                order_size,
                available_margin: initial_margin,
                new_customer_state: None,
                revoke_token: None,
                market_data: None,
                prev_market_data: None,
            },
        )
    }

    /// The request that opens the channel: the taker's key, the root
    /// commitment with its proof, the margin and the order size.
    fn send_open_channel_req(&self) -> (req: OpenChannelRequest)
        ensures
            self.open_channel_request(req),
    {
        OpenChannelRequest {
            customer_public_key: self.customer_state.pk_c.clone(),
            root_commitment: self.root_commitment.clone(),
            root_commitment_proof: self.root_commitment_proof.clone(),
            margin: self.initial_margin,
            order_size: self.order_size,
        }
    }

    /// Ends the establishment: where the maker's tokens verified, takes over
    /// the secret state that holds them and marks the channel established.
    fn recv_open_channel_res(
        &mut self,
        res: OpenChannelResponse,
        verified: Option<CustomerState>,
    ) -> (done: Result<(), ProtocolError>)
        ensures
            old(self).establishment_outcome(verified, *final(self), done),
            old(self).wf() ==> final(self).wf(),
    {
        if self.channel_state.channel_established {
            return Err(ProtocolError::AlreadyEstablished);
        }
        match verified {
            Some(state) => {
                self.customer_state = state;
                self.channel_state.channel_established = true;
                Ok(())
            },
            None => Err(ProtocolError::EstablishmentFailed),
        }
    }

    /// Sends one payment: the generated proof must claim the amount computed
    /// here; the secret state it leads to is kept as pending until the maker
    /// answers.
    fn send_payment_req(&mut self, generated: PaymentGenerated) -> (res: Result<
        PaymentRequest,
        ProtocolError,
    >)
        ensures
            old(self).payment_sent_outcome(generated, *final(self), res),
            old(self).wf() ==> final(self).wf(),
    {
        let expected: i64 = self.expected_payment()?;
        let received: i64 = generated.payment_proof.amount;
        if expected != received {
            return Err(ProtocolError::SettlementMismatch { expected, received });
        }
        if self.available_margin.checked_sub(expected).is_none() {
            return Err(ProtocolError::MarginOutOfRange);
        }
        self.new_customer_state = Some(
            PendingPayment { amount: expected, customer_state: generated.customer_state },
        );
        Ok(PaymentRequest { payment_proof: generated.payment_proof })
    }

    /// Accepts the maker's answer to the payment in flight: where the close
    /// token verified, the pending secret state becomes the current one, the
    /// margin shrinks by the amount paid, and the revoke token for the prior
    /// state is kept for the next request.
    fn recv_payment_res(&mut self, res: PaymentResponse, revocation: Option<Revocation>) -> (done:
        Result<(), ProtocolError>)
        ensures
            old(self).payment_answer_outcome(revocation, *final(self), done),
            old(self).wf() ==> final(self).wf(),
    {
        let amount: i64 = match &self.new_customer_state {
            Some(pending) => pending.amount,
            None => {
                return Err(ProtocolError::NoPendingPayment);
            },
        };
        let outcome: Revocation = match revocation {
            Some(outcome) => outcome,
            None => {
                return Err(ProtocolError::InvalidCloseToken);
            },
        };
        let margin: i64 = match self.available_margin.checked_sub(amount) {
            Some(margin) => margin,
            None => {
                return Err(ProtocolError::MarginOutOfRange);
            },
        };
        self.available_margin = margin;
        self.customer_state = outcome.customer_state;
        self.new_customer_state = None;
        self.revoke_token = Some(outcome.revoke_token);
        Ok(())
    }

    /// The request for the next pay token: it carries the revoke token of the
    /// round. The state stays as it is.
    fn send_generate_payment_token_req(&mut self) -> (res: Result<
        GeneratePaymentTokenRequest,
        ProtocolError,
    >)
        ensures
            *final(self) == *old(self),
            old(self).payment_token_request(res),
    {
        match &self.revoke_token {
            Some(token) => Ok(GeneratePaymentTokenRequest { revoke_token: token.clone() }),
            None => Err(ProtocolError::NoRevokeToken),
        }
    }

    /// Ends a payment round: where the new pay token verified against the
    /// current secret state, takes over the state that holds it and drops the
    /// revoke token.
    fn recv_generate_payment_token_res(
        &mut self,
        res: GeneratePaymentTokenResponse,
        verified: Option<CustomerState>,
    ) -> (done: Result<(), ProtocolError>)
        ensures
            old(self).payment_token_outcome(verified, *final(self), done),
            old(self).wf() ==> final(self).wf(),
    {
        if self.revoke_token.is_none() {
            return Err(ProtocolError::NoRevokeToken);
        }
        match verified {
            Some(state) => {
                self.customer_state = state;
                self.revoke_token = None;
                Ok(())
            },
            None => Err(ProtocolError::InvalidPaymentToken),
        }
    }

    /// Releases the close message that was signed over the current secret
    /// state, at any point from the establishment on.
    fn get_close_message(&self, signed: CloseMessage) -> (res: Result<CloseMessage, ProtocolError>)
        ensures
            self.channel_state.channel_established ==> res == Ok::<CloseMessage, ProtocolError>(
                signed,
            ),
            !self.channel_state.channel_established ==> res == Err::<CloseMessage, ProtocolError>(
                ProtocolError::NotEstablished,
            ),
    {
        if self.channel_state.channel_established {
            Ok(signed)
        } else {
            Err(ProtocolError::NotEstablished)
        }
    }
}

} // verus!
