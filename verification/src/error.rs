//! Failures of a protocol step.

use vstd::prelude::*;

verus! {

/// Why an engine refused a step. A refused step leaves the engine as it was.
#[derive(Clone, Copy, Debug, PartialEq, Eq, Structural)]
pub enum ProtocolError {
    /// No engine has been created in this session yet.
    NotInitialized,
    /// The channel token already carries a counter-party key.
    AlreadyBound,
    /// The step needs an established channel.
    NotEstablished,
    /// The channel is already established.
    AlreadyEstablished,
    /// The commitment proof or the tokens of the establishment did not verify.
    EstablishmentFailed,
    /// The amount a payment claims is not the amount computed here.
    SettlementMismatch { expected: i64, received: i64 },
    /// The payment proof did not verify.
    InvalidPayment,
    /// The close token that answers a payment did not verify.
    InvalidCloseToken,
    /// The revoke token does not invalidate the prior secret state.
    InvalidRevocation,
    /// The new payment token did not verify against the current secret state.
    InvalidPaymentToken,
    /// A current or a previous price snapshot is missing.
    MissingMarketData,
    /// The previous price is zero.
    InvalidMarketData,
    /// The settlement amount does not fit the integer type of amounts.
    SettlementOutOfRange,
    /// The margin after the payment does not fit the integer type of amounts.
    MarginOutOfRange,
    /// A payment is already in flight.
    PaymentInFlight,
    /// No payment is in flight.
    NoPendingPayment,
    /// No revoke token has been generated.
    NoRevokeToken,
}

impl ProtocolError {
    /// True of the failures that the counter-party caused: a proof, a token or
    /// an amount of theirs did not hold.
    pub open spec fn counterparty_caused(self) -> bool {
        self is EstablishmentFailed || self is SettlementMismatch || self is InvalidPayment
            || self is InvalidCloseToken || self is InvalidRevocation
            || self is InvalidPaymentToken
    }

    /// Tells a failure of the counter-party from a step made out of order or
    /// on missing data on this side.
    pub fn is_counterparty_caused(&self) -> (b: bool)
        ensures
            b == self.counterparty_caused(),
    {
        match self {
            ProtocolError::EstablishmentFailed => true,
            ProtocolError::SettlementMismatch { .. } => true,
            ProtocolError::InvalidPayment => true,
            ProtocolError::InvalidCloseToken => true,
            ProtocolError::InvalidRevocation => true,
            ProtocolError::InvalidPaymentToken => true,
            _ => false,
        }
    }
}

} // verus!
