//! What the escrow contract on NEAR takes and reports.

use vstd::prelude::*;
use vstd::std_specs::convert::FromSpecImpl;
use crate::chain_clients::{ChainError, EscrowAccount, MerchantPool};
use crate::channel::{ChannelState, ChannelToken, PublicKey};
use crate::encoding::{base64_bytes, decode};

verus! {

/// The argument of the contract's call that fills an order from a pool.
#[derive(Clone, Debug)]
pub struct EscrowFillMessage {
    pub merchant: String,
    pub customer_bls: PublicKey,
    pub wallet_commit: Vec<u8>,
}

/// The argument of the contract's call that escrows a maker's liquidity.
#[derive(Clone, Debug)]
pub struct EscrowLiquidityMessage {
    pub merchant_bls: PublicKey,
    /// The serialised channel state, in base64.
    pub channel_state: String,
    /// The serialised channel token, in base64.
    pub channel_token: String,
}

/// One pool, as the contract reports it.
#[derive(Clone, Debug)]
pub struct NearMerchantPool {
    pub total: u128,
    pub available: u128,
    pub bls_pub_key: String,
    /// The serialised channel state, in base64.
    pub channel_state: String,
    /// The serialised channel token, in base64.
    pub channel_token: String,
    pub escrows: Vec<NearEscrowAccount>,
}

/// One escrow of a pool, as the contract reports it.
#[derive(Clone, Debug)]
pub struct NearEscrowAccount {
    pub amount: u128,
    pub customer: String,
    pub customer_bls: String,
    pub wallet_commit: Vec<u8>,
}

/// The serialised channel state and token of a pool.
#[derive(Clone, Debug)]
pub struct ChannelBlobs {
    pub channel_state: Vec<u8>,
    pub channel_token: Vec<u8>,
}

/// The escrow that a report of the contract stands for.
pub open spec fn escrow_of(near_escrow: NearEscrowAccount) -> EscrowAccount {
    EscrowAccount {
        amount: near_escrow.amount,
        customer: near_escrow.customer,
        customer_bls: near_escrow.customer_bls,
        wallet_commit: near_escrow.wallet_commit,
    }
}

impl From<NearEscrowAccount> for EscrowAccount {
    fn from(near_escrow: NearEscrowAccount) -> (escrow: EscrowAccount) {
        EscrowAccount {
            amount: near_escrow.amount,
            customer: near_escrow.customer,
            customer_bls: near_escrow.customer_bls,
            wallet_commit: near_escrow.wallet_commit,
        }
    }
}

impl FromSpecImpl<NearEscrowAccount> for EscrowAccount {
    open spec fn obeys_from_spec() -> bool {
        true
    }

    open spec fn from_spec(near_escrow: NearEscrowAccount) -> EscrowAccount {
        escrow_of(near_escrow)
    }
}

impl NearMerchantPool {
    /// Takes the channel state and the channel token of this pool out of
    /// their base64 text. Fails where either is no base64 text.
    pub fn decode_channel(&self) -> (blobs: Result<ChannelBlobs, ChainError>)
        ensures
            match blobs {
                Ok(blobs) => base64_bytes(self.channel_state@) == Some(blobs.channel_state@)
                    && base64_bytes(self.channel_token@) == Some(blobs.channel_token@),
                Err(e) => (base64_bytes(self.channel_state@) is None || base64_bytes(
                    self.channel_token@,
                ) is None) && (e matches ChainError::ChainErr(detail) && detail@
                    == "invalid base64 in chain data"@),
            },
    {
        let channel_state: Vec<u8> = decode(&self.channel_state)?;
        let channel_token: Vec<u8> = decode(&self.channel_token)?;
        Ok(ChannelBlobs { channel_state, channel_token })
    }
}

impl MerchantPool {
    /// The pool that a report of the contract stands for, around the channel
    /// state and token that were read out of its blobs.
    pub fn from_near(
        near_merchant_pool: NearMerchantPool,
        channel_state: ChannelState,
        channel_token: ChannelToken,
    ) -> (pool: MerchantPool)
        ensures
            pool.total == near_merchant_pool.total,
            pool.available == near_merchant_pool.available,
            pool.bls_pub_key == near_merchant_pool.bls_pub_key,
            pool.channel_state == channel_state,
            pool.channel_token == channel_token,
            pool.escrows@.len() == near_merchant_pool.escrows@.len(),
            forall|i: int|
                0 <= i < pool.escrows@.len() ==> pool.escrows@[i] == escrow_of(
                    near_merchant_pool.escrows@[i],
                ),
    {
        let ghost reported = near_merchant_pool.escrows@;
        let mut escrows: Vec<EscrowAccount> = Vec::new();
        for near_escrow in it: near_merchant_pool.escrows
            invariant
                it.seq() == reported,
                escrows@.len() == it.index(),
                forall|i: int|
                    0 <= i < escrows@.len() ==> escrows@[i] == escrow_of(reported[i]),
        {
            escrows.push(EscrowAccount::from(near_escrow));
        }
        MerchantPool {
            total: near_merchant_pool.total,
            available: near_merchant_pool.available,
            bls_pub_key: near_merchant_pool.bls_pub_key,
            channel_state,
            channel_token,
            escrows,
        }
    }
}

} // verus!
