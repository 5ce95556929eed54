//! The adapter of the NEAR chain: the shapes of what the escrow contract
//! takes and reports, and the calls that escrow and fill.

pub mod client;
pub mod model;
