//! The calls into the escrow contract on NEAR. A client of the chain signs
//! and sends what is framed here.

use vstd::prelude::*;
use vstd::string::*;
use crate::chain_clients::ChainError;
use crate::encoding::{base64_text, encodable, encode};
use crate::maker::MakerState;
use crate::near::model::{EscrowFillMessage, EscrowLiquidityMessage};
use crate::taker::TakerState;

verus! {

/// The gas attached to every call of the escrow contract.
pub const ESCROW_GAS: u64 = 1_000_000_000;

/// One call of a method of a contract, with the deposit attached to it.
#[derive(Clone, Debug)]
pub struct ContractCall {
    pub contract: String,
    pub method_name: String,
    pub args: Vec<u8>,
    pub gas: u64,
    pub deposit: u128,
}

/// How a transaction ended.
#[derive(Clone, Debug)]
pub enum ExecutionStatus {
    NotStarted,
    Started,
    /// The transaction failed, with what the chain said of it.
    Failure(String),
    /// The transaction succeeded, with the value it returned.
    SuccessValue(Vec<u8>),
}

/// The nonce of the next transaction of an account: one more than the nonce
/// of its first access key.
pub fn get_account_next_nonce(access_key_nonces: &Vec<u64>) -> (nonce: Result<u64, ChainError>)
    ensures
        match nonce {
            Ok(nonce) => access_key_nonces@.len() > 0 && nonce == access_key_nonces@[0] + 1,
            Err(e) => (access_key_nonces@.len() == 0 || access_key_nonces@[0] == u64::MAX) && (
            e matches ChainError::ChainErr(detail) && detail@
                == "no usable access key for the account"@),
        },
{
    if access_key_nonces.len() > 0 && access_key_nonces[0] < u64::MAX {
        Ok(access_key_nonces[0] + 1)
    } else {
        Err(ChainError::ChainErr(String::from_str("no usable access key for the account")))
    }
}

/// The argument of the call that escrows the liquidity of `maker_state`: the
/// maker's key, and the serialised channel state and token in base64.
pub fn liquidity_message(
    maker_state: &MakerState,
    channel_state: &Vec<u8>,
    channel_token: &Vec<u8>,
) -> (message: Result<EscrowLiquidityMessage, ChainError>)
    ensures
        match message {
            Ok(message) => {
                &&& encodable(channel_state@.len()) && encodable(channel_token@.len())
                &&& message.merchant_bls@ == maker_state.merchant_state.pk@
                &&& message.channel_state@ == base64_text(channel_state@)
                &&& message.channel_token@ == base64_text(channel_token@)
            },
            Err(e) => !(encodable(channel_state@.len()) && encodable(channel_token@.len())) && (
            e matches ChainError::ChainErr(detail) && detail@ == "channel data too large"@),
        },
{
    match (encode(channel_state), encode(channel_token)) {
        (Some(state_text), Some(token_text)) => Ok(
            EscrowLiquidityMessage {
                merchant_bls: maker_state.merchant_state.pk.clone(),
                channel_state: state_text,
                channel_token: token_text,
            },
        ),
        _ => Err(ChainError::ChainErr(String::from_str("channel data too large"))),
    }
}

/// The argument of the call that fills an order of `taker_state` from the
/// pool of `merchant`: the taker's wallet key, and the text of the serialised
/// root commitment in base64.
pub fn fill_message(taker_state: &TakerState, merchant: String, root_commitment: &Vec<u8>) -> (message:
    Result<EscrowFillMessage, ChainError>)
    ensures
        match message {
            Ok(message) => {
                &&& encodable(root_commitment@.len())
                &&& message.merchant == merchant
                &&& message.customer_bls@ == taker_state.customer_state.wpk@
                &&& message.wallet_commit@ == vstd::utf8::encode_utf8(
                    base64_text(root_commitment@),
                )
            },
            Err(e) => !encodable(root_commitment@.len()) && (e matches ChainError::ChainErr(
                detail,
            ) && detail@ == "channel data too large"@),
        },
{
    match encode(root_commitment) {
        Some(text) => Ok(
            EscrowFillMessage {
                merchant,
                customer_bls: taker_state.customer_state.wpk.clone(),
                wallet_commit: text.as_str().as_bytes_vec(),
            },
        ),
        None => Err(ChainError::ChainErr(String::from_str("channel data too large"))),
    }
}

/// The call that escrows `amount` as a maker's liquidity.
pub fn escrow_liquidity(args: Vec<u8>, amount: u128) -> (call: ContractCall)
    ensures
        call.contract@ == "escrow_test2"@,
        call.method_name@ == "escrow_liquidity"@,
        call.args == args,
        call.gas == ESCROW_GAS,
        call.deposit == amount,
{
    ContractCall {
        contract: String::from_str("escrow_test2"),
        method_name: String::from_str("escrow_liquidity"),
        args,
        gas: ESCROW_GAS,
        deposit: amount,
    }
}

/// The call that escrows `amount` as a taker's fill of an order.
pub fn escrow_fill(args: Vec<u8>, amount: u128) -> (call: ContractCall)
    ensures
        call.contract@ == "escrow_test2"@,
        call.method_name@ == "escrow_fill"@,
        call.args == args,
        call.gas == ESCROW_GAS,
        call.deposit == amount,
{
    ContractCall {
        contract: String::from_str("escrow_test2"),
        method_name: String::from_str("escrow_fill"),
        args,
        gas: ESCROW_GAS,
        deposit: amount,
    }
}

/// The view call by which the contract reports its pools: no argument, and
/// nothing attached.
pub fn show_liquidity() -> (call: ContractCall)
    ensures
        call.contract@ == "escrow_test2"@,
        call.method_name@ == "show_liquidity"@,
        call.args@.len() == 0,
        call.gas == 0,
        call.deposit == 0,
{
    ContractCall {
        contract: String::from_str("escrow_test2"),
        method_name: String::from_str("show_liquidity"),
        args: Vec::new(),
        gas: 0,
        deposit: 0,
    }
}

/// What a finished transaction returned: its value in base64 where it
/// succeeded, and what went wrong where it did not.
pub fn execution_result(status: ExecutionStatus) -> (res: Result<String, String>)
    ensures
        match status {
            ExecutionStatus::SuccessValue(value) => if encodable(value@.len()) {
                res matches Ok(text) && text@ == base64_text(value@)
            } else {
                res matches Err(detail) && detail@ == "returned value too large"@
            },
            ExecutionStatus::Failure(detail) => res == Err::<String, String>(detail),
            ExecutionStatus::NotStarted => res matches Err(detail) && detail@
                == "transaction not started"@,
            ExecutionStatus::Started => res matches Err(detail) && detail@
                == "transaction not finished"@,
        },
{
    match status {
        ExecutionStatus::SuccessValue(value) => match encode(&value) {
            Some(text) => Ok(text),
            None => Err(String::from_str("returned value too large")),
        },
        ExecutionStatus::Failure(detail) => Err(detail),
        ExecutionStatus::NotStarted => Err(String::from_str("transaction not started")),
        ExecutionStatus::Started => Err(String::from_str("transaction not finished")),
    }
}

} // verus!
