//! The adapter of the Cosmos chain: the shapes of what its node takes and
//! returns, and the request that places a maker's order.

pub mod client;
pub mod model;
