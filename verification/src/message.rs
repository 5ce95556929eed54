//! The messages that maker and taker exchange, and the order that starts a
//! taker.

use vstd::prelude::*;
use crate::channel::{Commitment, CommitmentProof, Payment, PublicKey, RevokeToken, Signature};

verus! {

/// The taker asks the maker to open a channel.
#[derive(Clone, Debug)]
pub struct OpenChannelRequest {
    pub customer_public_key: PublicKey,
    pub root_commitment: Commitment,
    pub root_commitment_proof: CommitmentProof,
    pub margin: i64,
    pub order_size: i64,
}

/// The maker's tokens for a channel it agreed to open.
#[derive(Clone, Debug)]
pub struct OpenChannelResponse {
    pub close_token: Signature,
    pub pay_token: Signature,
}

/// The taker's payment for one settlement period.
#[derive(Clone, Debug)]
pub struct PaymentRequest {
    pub payment_proof: Payment,
}

/// The maker's close token for the state after a payment.
#[derive(Clone, Debug)]
pub struct PaymentResponse {
    pub close_token: Signature,
}

/// The taker revokes its prior state and asks for the next pay token.
#[derive(Clone, Debug)]
pub struct GeneratePaymentTokenRequest {
    pub revoke_token: RevokeToken,
}

/// The maker's pay token for the next payment.
#[derive(Clone, Debug)]
pub struct GeneratePaymentTokenResponse {
    pub payment_token: Signature,
}

/// A taker's order against the liquidity of one maker on one chain.
#[derive(Clone, Debug)]
pub struct OrderRequest {
    pub initial_margin: i64,
    pub order_size: i64,
    pub maker_order_id: String,
    pub chain: String,
}

} // verus!
