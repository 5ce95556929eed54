//! The configuration of the daemon.

use vstd::prelude::*;
use vstd::string::*;

verus! {

/// The keys of one chain.
#[derive(Clone, Debug)]
pub struct ChainConfig {
    pub chain_id: String,
    pub account_id: String,
    /// The secret key of the account, in the chain's own text form.
    pub secret_key: String,
}

/// The configuration of the daemon: the chains it has keys for, and where
/// the counter-party listens.
#[derive(Clone, Debug)]
pub struct RainboltdConfig {
    pub chains: Option<Vec<ChainConfig>>,
    pub channel_ip: String,
    pub recv_pay: String,
}

impl ChainConfig {
    /// Whether this is a configuration of the NEAR chain, in one of the three
    /// spellings that are taken for it.
    pub fn is_near(&self) -> (near: bool)
        ensures
            near == (self.chain_id@ == "near"@ || self.chain_id@ == "Near"@ || self.chain_id@
                == "NEAR"@),
    {
        self.chain_id == String::from_str("near") || self.chain_id == String::from_str("Near")
            || self.chain_id == String::from_str("NEAR")
    }
}

impl RainboltdConfig {
    /// The address of the counter-party.
    pub fn ip(&self) -> (address: &str)
        ensures
            address@ == self.channel_ip@,
    {
        self.channel_ip.as_str()
    }
}

impl Default for RainboltdConfig {
    /// No chain, and a counter-party on this machine.
    fn default() -> (config: Self)
        ensures
            config.chains is None,
            config.channel_ip@ == "http://localhost:3031"@,
            config.recv_pay@ == "http://localhost:3031"@ + "/maker/recvPay"@,
    {
        RainboltdConfig {
            chains: None,
            channel_ip: String::from_str("http://localhost:3031"),
            recv_pay: String::from_str("http://localhost:3031").concat("/maker/recvPay"),
        }
    }
}

} // verus!
