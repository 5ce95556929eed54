//! What the node of the Cosmos chain takes and returns.

use vstd::prelude::*;

verus! {

/// A taker's fill of an order.
#[derive(Clone, Debug)]
pub struct FillOrder {
    pub customer: Vec<u8>,
    pub wallet_commit: Vec<u8>,
}

/// A request to the node: the common part, and the order beside it.
#[derive(Clone, Debug)]
pub struct CosmosRequest {
    pub base_req: BaseRequest,
    pub request: CreateOrderReq,
}

/// The part that every request to the node carries.
#[derive(Clone, Debug)]
pub struct BaseRequest {
    pub from: String,
    pub chain_id: String,
}

/// An amount of one denomination.
#[derive(Clone, Debug)]
pub struct Coin {
    pub denom: String,
    pub amount: String,
}

/// A maker's order: its channel state and token in base64, and the amount.
#[derive(Clone, Debug)]
pub struct CreateOrderReq {
    pub merchant: String,
    pub channel_state: String,
    pub channel_token: String,
    pub amount: String,
}

/// A maker's order, as the node returns it for signing.
#[derive(Clone, Debug)]
pub struct CreateOrderRes {
    pub merchant: String,
    pub channel_state: String,
    pub channel_token: String,
    pub amount: Vec<Coin>,
}

/// The transaction that places an order.
#[derive(Clone, Debug)]
pub struct CreateOrderTx {
    pub tx_type: String,
    pub value: CreateOrderTxValue,
}

/// The body of the transaction that places an order.
#[derive(Clone, Debug)]
pub struct CreateOrderTxValue {
    pub msg: Vec<CreateOrderTxMessage>,
    pub fee: TxFee,
    pub signatures: Option<String>,
    pub memo: String,
}

/// One message of the transaction that places an order.
#[derive(Clone, Debug)]
pub struct CreateOrderTxMessage {
    pub msg_type: String,
    pub value: CreateOrderRes,
}

/// The fee of a transaction.
#[derive(Clone, Debug)]
pub struct TxFee {
    pub amount: Vec<Coin>,
    pub gas: String,
}

/// An order that is open on the chain.
#[derive(Clone, Debug)]
pub struct OpenOrder {
    pub merchant: String,
    pub channel_state: String,
    pub channel_token: String,
}

} // verus!
