//! Verified core of a bilateral payment-channel daemon: settlement arithmetic,
//! the maker and taker channel engines, liquidity matching and the framing of
//! the messages that go to the chains.

use vstd::prelude::*;

pub mod agreement;
pub mod chain_clients;
pub mod channel;
pub mod config;
pub mod cosmos;
pub mod encoding;
pub mod error;
pub mod maker;
pub mod math;
pub mod message;
pub mod near;
pub mod session;
pub mod taker;

verus! {

/// Price of one asset, in fixed point (see [`math::SCALE`]).
#[derive(Clone, Copy, Debug, PartialEq, Eq, Structural)]
pub struct MarketPrice {
    pub usd: i64,
}

/// One snapshot of the price feed.
#[derive(Clone, Copy, Debug, PartialEq, Eq, Structural)]
pub struct MarketData {
    pub bitcoin: MarketPrice,
    pub cosmos: MarketPrice,
}

} // verus!
