//! The maker's engine: one liquidity provider's side of a channel.
//!
//! The engine decides; the channel cryptography runs beside it. Each step
//! takes what the cryptography returned for the request at hand, `None` where
//! it rejected a proof or a token, and says what becomes of the state.

use vstd::prelude::*;
use crate::MarketData;
use crate::channel::{ChannelId, ChannelState, ChannelToken, MerchantState, Signature};
use crate::error::ProtocolError;
use crate::math::{compute_payment, payment_due};
use crate::message::{
    GeneratePaymentTokenRequest,
    GeneratePaymentTokenResponse,
    OpenChannelRequest,
    OpenChannelResponse,
    PaymentRequest,
    PaymentResponse,
};

verus! {

/// What the cryptography generates for a new maker.
#[derive(Clone, Debug)]
pub struct MerchantSetup {
    pub channel_token: ChannelToken,
    pub channel_state: ChannelState,
    pub merchant_state: MerchantState,
}

/// The tokens issued for a commitment whose proof held.
#[derive(Clone, Debug)]
pub struct EstablishTokens {
    pub close_token: Signature,
    pub pay_token: Signature,
}

/// A payment proof that held: the close token for the new state, and the
/// maker's secret material after the payment.
#[derive(Clone, Debug)]
pub struct PaymentVerified {
    pub close_token: Signature,
    pub merchant_state: MerchantState,
}

/// A revoke token that held: the next pay token, and the maker's secret
/// material after the revocation.
#[derive(Clone, Debug)]
pub struct RevocationVerified {
    pub payment_token: Signature,
    pub merchant_state: MerchantState,
}

/// Where a maker stands in the life of its channel.
#[derive(Clone, Copy, Debug, PartialEq, Eq, Structural)]
pub enum MakerPhase {
    /// The margin is escrowed; a taker is awaited.
    AwaitingCounterparty,
    /// A taker's order is bound: payments are taken.
    Established,
}

/// One maker's channel state.
#[derive(Clone, Debug)]
pub struct MakerState {
    pub channel_id: Option<ChannelId>,
    pub channel_token: ChannelToken,
    pub channel_state: ChannelState,
    pub merchant_state: MerchantState,
    pub initial_margin: i64,
    pub order_size: Option<i64>,
    pub available_margin: i64,
    pub market_data: Option<MarketData>,
    pub prev_market_data: Option<MarketData>,
}

/// The steps of a maker.
pub trait Maker: Sized {
    fn init(initial_margin: i64, setup: MerchantSetup) -> Self;

    fn recv_open_channel_req(
        &mut self,
        req: OpenChannelRequest,
        issued: Option<EstablishTokens>,
    ) -> Result<OpenChannelResponse, ProtocolError>;

    fn recv_payment_req(
        &mut self,
        req: PaymentRequest,
        verified: Option<PaymentVerified>,
    ) -> Result<PaymentResponse, ProtocolError>;

    fn recv_generate_payment_token_req(
        &mut self,
        req: GeneratePaymentTokenRequest,
        verified: Option<RevocationVerified>,
    ) -> Result<GeneratePaymentTokenResponse, ProtocolError>;
}

impl MakerState {
    /// A channel identity is held exactly while an order is bound, and it is
    /// the identity of the token.
    pub open spec fn wf(self) -> bool {
        &&& self.channel_id is Some <==> self.order_size is Some
        &&& self.channel_id matches Some(id) ==> self.channel_token.identity() == Some(id@)
    }

    /// Where this maker stands.
    pub open spec fn phase_of(self) -> MakerPhase {
        if self.order_size is Some {
            MakerPhase::Established
        } else {
            MakerPhase::AwaitingCounterparty
        }
    }

    /// Where this maker stands.
    pub fn phase(&self) -> (phase: MakerPhase)
        ensures
            phase == self.phase_of(),
    {
        if self.order_size.is_some() {
            MakerPhase::Established
        } else {
            MakerPhase::AwaitingCounterparty
        }
    }

    /// The payment that this maker expects for the current period.
    pub open spec fn payment_expected(self) -> Result<i64, ProtocolError> {
        if self.order_size is None {
            Err(ProtocolError::NotEstablished)
        } else if self.market_data is None || self.prev_market_data is None {
            Err(ProtocolError::MissingMarketData)
        } else {
            payment_due(
                self.market_data->0.bitcoin.usd as int,
                self.prev_market_data->0.bitcoin.usd as int,
                self.order_size->0 as int,
            )
        }
    }

    /// What the maker makes of a payment that claims `amount`, before any
    /// proof is looked at: the amount to book, or why the payment is refused.
    pub open spec fn payment_checked(self, amount: i64) -> Result<i64, ProtocolError> {
        match self.payment_expected() {
            Err(e) => Err(e),
            Ok(expected) => if expected != amount {
                Err(ProtocolError::SettlementMismatch { expected, received: amount })
            } else if self.available_margin + expected < i64::MIN || self.available_margin
                + expected > i64::MAX {
                Err(ProtocolError::MarginOutOfRange)
            } else {
                Ok(expected)
            },
        }
    }

    /// `maker` is the new maker made of `setup`: its whole margin available,
    /// no order bound and no price seen.
    pub open spec fn init_outcome(initial_margin: i64, setup: MerchantSetup, maker: MakerState) -> bool {
        &&& maker.channel_id is None
        &&& maker.channel_token == setup.channel_token
        &&& maker.channel_state == setup.channel_state
        &&& maker.merchant_state == setup.merchant_state
        &&& maker.initial_margin == initial_margin
        &&& maker.order_size is None
        &&& maker.available_margin == initial_margin
        &&& maker.market_data is None
        &&& maker.prev_market_data is None
    }

    /// `next` is this state with a new price snapshot installed.
    pub open spec fn market_updated(self, snapshot: MarketData, next: MakerState) -> bool {
        &&& next.market_data == Some(snapshot)
        &&& next.prev_market_data == self.market_data
        &&& next.channel_id == self.channel_id
        &&& next.channel_token == self.channel_token
        &&& next.channel_state == self.channel_state
        &&& next.merchant_state == self.merchant_state
        &&& next.initial_margin == self.initial_margin
        &&& next.order_size == self.order_size
        &&& next.available_margin == self.available_margin
    }

    /// What becomes of this state, and what is answered, when a taker asks to
    /// open the channel and the cryptography issued `issued`.
    pub open spec fn open_channel_outcome(
        self,
        req: OpenChannelRequest,
        issued: Option<EstablishTokens>,
        next: MakerState,
        res: Result<OpenChannelResponse, ProtocolError>,
    ) -> bool {
        if self.channel_token.pk_c is Some {
            res == Err::<OpenChannelResponse, ProtocolError>(ProtocolError::AlreadyBound) && next
                == self
        } else if issued is None {
            res == Err::<OpenChannelResponse, ProtocolError>(ProtocolError::EstablishmentFailed)
                && next == self
        } else {
            &&& res matches Ok(response)
            &&& response.close_token == issued->0.close_token
            &&& response.pay_token == issued->0.pay_token
            &&& next.channel_token.pk_c == Some(req.customer_public_key)
            &&& next.channel_token.pk_m == self.channel_token.pk_m
            &&& next.channel_token.params == self.channel_token.params
            &&& next.channel_id matches Some(id)
            &&& id@ == self.channel_token.identity_with(req.customer_public_key@)
            &&& next.order_size == Some(req.order_size)
            &&& next.channel_state == self.channel_state
            &&& next.merchant_state == self.merchant_state
            &&& next.initial_margin == self.initial_margin
            &&& next.available_margin == self.available_margin
            &&& next.market_data == self.market_data
            &&& next.prev_market_data == self.prev_market_data
        }
    }

    /// What becomes of this state, and what is answered, when a payment
    /// arrives and the cryptography made `verified` of its proof.
    pub open spec fn payment_outcome(
        self,
        req: PaymentRequest,
        verified: Option<PaymentVerified>,
        next: MakerState,
        res: Result<PaymentResponse, ProtocolError>,
    ) -> bool {
        match self.payment_checked(req.payment_proof.amount) {
            Err(e) => res == Err::<PaymentResponse, ProtocolError>(e) && next == self,
            Ok(amount) => if verified is None {
                res == Err::<PaymentResponse, ProtocolError>(ProtocolError::InvalidPayment) && next
                    == self
            } else {
                &&& res matches Ok(response)
                &&& response.close_token == verified->0.close_token
                &&& next.available_margin == self.available_margin + amount
                &&& next.merchant_state == verified->0.merchant_state
                &&& next.channel_id == self.channel_id
                &&& next.channel_token == self.channel_token
                &&& next.channel_state == self.channel_state
                &&& next.initial_margin == self.initial_margin
                &&& next.order_size == self.order_size
                &&& next.market_data == self.market_data
                &&& next.prev_market_data == self.prev_market_data
            },
        }
    }

    /// What becomes of this state, and what is answered, when a revoke token
    /// arrives and the cryptography made `verified` of it.
    pub open spec fn payment_token_outcome(
        self,
        verified: Option<RevocationVerified>,
        next: MakerState,
        res: Result<GeneratePaymentTokenResponse, ProtocolError>,
    ) -> bool {
        if self.order_size is None {
            res == Err::<GeneratePaymentTokenResponse, ProtocolError>(
                ProtocolError::NotEstablished,
            ) && next == self
        } else if verified is None {
            res == Err::<GeneratePaymentTokenResponse, ProtocolError>(
                ProtocolError::InvalidRevocation,
            ) && next == self
        } else {
            &&& res matches Ok(response)
            &&& response.payment_token == verified->0.payment_token
            &&& next.merchant_state == verified->0.merchant_state
            &&& next.available_margin == self.available_margin
            &&& next.channel_id == self.channel_id
            &&& next.channel_token == self.channel_token
            &&& next.channel_state == self.channel_state
            &&& next.initial_margin == self.initial_margin
            &&& next.order_size == self.order_size
            &&& next.market_data == self.market_data
            &&& next.prev_market_data == self.prev_market_data
        }
    }

    /// Computes the payment of the current period from the two stored
    /// snapshots and the bound order size.
    pub fn expected_payment(&self) -> (payment: Result<i64, ProtocolError>)
        ensures
            payment == self.payment_expected(),
    {
        let size: i64 = match self.order_size {
            Some(size) => size,
            None => {
                return Err(ProtocolError::NotEstablished);
            },
        };
        match (self.market_data, self.prev_market_data) {
            (Some(current), Some(previous)) => compute_payment(current, previous, size),
            _ => Err(ProtocolError::MissingMarketData),
        }
    }

    /// Holds the amount of a payment request against the amount computed
    /// here. The proof is worth verifying only where this returns `Ok`.
    pub fn check_payment_req(&self, req: &PaymentRequest) -> (amount: Result<i64, ProtocolError>)
        ensures
            amount == self.payment_checked(req.payment_proof.amount),
    {
        let expected: i64 = self.expected_payment()?;
        let received: i64 = req.payment_proof.amount;
        if expected != received {
            return Err(ProtocolError::SettlementMismatch { expected, received });
        }
        match self.available_margin.checked_add(expected) {
            Some(_) => Ok(expected),
            None => Err(ProtocolError::MarginOutOfRange),
        }
    }

    /// Installs a new price snapshot; the one it replaces becomes the
    /// previous one.
    pub fn update_market_data(&mut self, snapshot: MarketData)
        ensures
            old(self).market_updated(snapshot, *final(self)),
            old(self).wf() ==> final(self).wf(),
    {
        self.prev_market_data = self.market_data;
        self.market_data = Some(snapshot);
    }
}

impl Maker for MakerState {
    /// A new maker around what the cryptography generated for it.
    fn init(initial_margin: i64, setup: MerchantSetup) -> (maker: Self)
        ensures
            MakerState::init_outcome(initial_margin, setup, maker),
            maker.wf(),
    {
        MakerState {
            channel_id: None,
            channel_token: setup.channel_token,
            channel_state: setup.channel_state,
            merchant_state: setup.merchant_state,
            initial_margin,
            order_size: None,
            available_margin: initial_margin,
            market_data: None,
            prev_market_data: None,
        }
    }

    /// Opens the channel for a taker: binds the taker's key into the token,
    /// derives the channel identity, records the order size and hands out the
    /// issued tokens. Refused where a key is bound already, or where no token
    /// was issued because the commitment proof did not hold.
    fn recv_open_channel_req(
        &mut self,
        req: OpenChannelRequest,
        issued: Option<EstablishTokens>,
    ) -> (res: Result<OpenChannelResponse, ProtocolError>)
        ensures
            old(self).open_channel_outcome(req, issued, *final(self), res),
            res is Ok ==> final(self).wf(),
            old(self).wf() ==> final(self).wf(),
    {
        if self.channel_token.pk_c.is_some() {
            return Err(ProtocolError::AlreadyBound);
        }
        let tokens: EstablishTokens = match issued {
            Some(tokens) => tokens,
            None => {
                return Err(ProtocolError::EstablishmentFailed);
            },
        };
        let _ = self.channel_token.set_customer_pk(req.customer_public_key);
        self.channel_id = self.channel_token.compute_channel_id();
        self.order_size = Some(req.order_size);
        Ok(OpenChannelResponse { close_token: tokens.close_token, pay_token: tokens.pay_token })
    }

    /// Books one payment. The amount that the request claims must be the
    /// amount computed here, and the proof must have held; then the margin
    /// grows by the amount and the close token goes out.
    fn recv_payment_req(
        &mut self,
        req: PaymentRequest,
        verified: Option<PaymentVerified>,
    ) -> (res: Result<PaymentResponse, ProtocolError>)
        ensures
            old(self).payment_outcome(req, verified, *final(self), res),
            old(self).wf() ==> final(self).wf(),
    {
        let amount: i64 = self.check_payment_req(&req)?;
        let outcome: PaymentVerified = match verified {
            Some(outcome) => outcome,
            None => {
                return Err(ProtocolError::InvalidPayment);
            },
        };
        self.available_margin = self.available_margin + amount;
        self.merchant_state = outcome.merchant_state;
        Ok(PaymentResponse { close_token: outcome.close_token })
    }

    /// Ends a payment round: where the revoke token held, takes over the
    /// secret material and hands out the next pay token.
    fn recv_generate_payment_token_req(
        &mut self,
        req: GeneratePaymentTokenRequest,
        verified: Option<RevocationVerified>,
    ) -> (res: Result<GeneratePaymentTokenResponse, ProtocolError>)
        ensures
            old(self).payment_token_outcome(verified, *final(self), res),
            old(self).wf() ==> final(self).wf(),
    {
        if self.order_size.is_none() {
            return Err(ProtocolError::NotEstablished);
        }
        let outcome: RevocationVerified = match verified {
            Some(outcome) => outcome,
            None => {
                return Err(ProtocolError::InvalidRevocation);
            },
        };
        self.merchant_state = outcome.merchant_state;
        Ok(GeneratePaymentTokenResponse { payment_token: outcome.payment_token })
    }
}

} // verus!
