//! The request by which a maker's order is placed on the Cosmos chain. A
//! client of the chain sends what is framed here.

use vstd::prelude::*;
use vstd::string::*;
use crate::chain_clients::ChainError;
use crate::cosmos::model::{BaseRequest, CosmosRequest, CreateOrderReq};
use crate::encoding::{base64_text, encodable, encode};

verus! {

/// The request for the transaction that places the order of `merchant`: the
/// serialised channel state and token go in base64, the amount as it is.
pub fn create_order_request(
    merchant: String,
    channel_state: &Vec<u8>,
    channel_token: &Vec<u8>,
    amount: String,
) -> (msg: Result<CosmosRequest, ChainError>)
    ensures
        match msg {
            Ok(msg) => {
                &&& encodable(channel_state@.len()) && encodable(channel_token@.len())
                &&& msg.base_req.from@ == merchant@
                &&& msg.base_req.chain_id@ == "nameservice"@
                &&& msg.request.merchant == merchant
                &&& msg.request.channel_state@ == base64_text(channel_state@)
                &&& msg.request.channel_token@ == base64_text(channel_token@)
                &&& msg.request.amount == amount
            },
            Err(e) => !(encodable(channel_state@.len()) && encodable(channel_token@.len())) && (
            e matches ChainError::ChainErr(detail) && detail@ == "channel data too large"@),
        },
{
    match (encode(channel_state), encode(channel_token)) {
        (Some(state_text), Some(token_text)) => {
            let base_req = BaseRequest {
                from: merchant.clone(),
                chain_id: String::from_str("nameservice"),
            };
            let order = CreateOrderReq {
                merchant,
                channel_state: state_text,
                channel_token: token_text,
                amount,
            };
            Ok(CosmosRequest { base_req, request: order })
        },
        _ => Err(ChainError::ChainErr(String::from_str("channel data too large"))),
    }
}

} // verus!
