//! What every chain has in common: the pools of liquidity that a chain
//! reports, the failures of a chain call, the chains that are configured, and
//! the matching of an order to a pool.

use vstd::prelude::*;
use vstd::string::*;
use crate::channel::{ChannelState, ChannelToken};

verus! {

/// Why a request that needs a chain failed.
#[derive(Clone, Debug, PartialEq, Eq)]
pub enum ChainError {
    /// No client is configured for the chain that the request names.
    ChainNotAvailable,
    /// The chain, or the call to it, failed; with what it said.
    ChainErr(String),
    /// No pool on the chain carries the maker's identifier.
    MakerNotFound,
}

impl ChainError {
    /// The text of this failure.
    pub open spec fn message_text(self) -> Seq<char> {
        match self {
            ChainError::ChainNotAvailable => "Chain not available"@,
            ChainError::ChainErr(detail) => "Chain error: "@ + detail@,
            ChainError::MakerNotFound => "Maker not found on chain"@,
        }
    }

    /// The text of this failure, for the one who made the request.
    pub fn message(&self) -> (text: String)
        ensures
            text@ == self.message_text(),
    {
        match self {
            ChainError::ChainNotAvailable => String::from_str("Chain not available"),
            ChainError::ChainErr(detail) => String::from_str("Chain error: ").concat(
                detail.as_str(),
            ),
            ChainError::MakerNotFound => String::from_str("Maker not found on chain"),
        }
    }
}

/// One taker's escrow in a pool, as a chain reports it.
#[derive(Clone, Debug)]
pub struct EscrowAccount {
    pub amount: u128,
    pub customer: String,
    pub customer_bls: String,
    pub wallet_commit: Vec<u8>,
}

/// One maker's liquidity, as a chain reports it.
#[derive(Clone, Debug)]
pub struct MerchantPool {
    pub total: u128,
    pub available: u128,
    pub bls_pub_key: String,
    pub channel_state: ChannelState,
    pub channel_token: ChannelToken,
    pub escrows: Vec<EscrowAccount>,
}

impl MerchantPool {
    /// A taker can take the channel of this pool: its token holds no taker's
    /// key and its channel is not established.
    pub open spec fn takeable(self) -> bool {
        self.channel_token.pk_c is None && !self.channel_state.channel_established
    }
}

/// What a chain call returned, with its failure in the common form.
pub fn chain_result(outcome: Result<String, String>) -> (res: Result<String, ChainError>)
    ensures
        match outcome {
            Ok(receipt) => res == Ok::<String, ChainError>(receipt),
            Err(detail) => res == Err::<String, ChainError>(ChainError::ChainErr(detail)),
        },
{
    match outcome {
        Ok(receipt) => Ok(receipt),
        Err(detail) => Err(ChainError::ChainErr(detail)),
    }
}

/// `place` is the first place in `names` that holds `name`.
pub open spec fn named_at(names: Seq<String>, name: Seq<char>, place: int) -> bool {
    &&& 0 <= place < names.len()
    &&& names[place]@ == name
    &&& forall|j: int| 0 <= j < place ==> names[j]@ != name
}

/// No place in `names` holds `name`.
pub open spec fn unnamed(names: Seq<String>, name: Seq<char>) -> bool {
    forall|j: int| 0 <= j < names.len() ==> names[j]@ != name
}

/// `place` is the first place in `pools` whose identifier is `id`.
pub open spec fn pool_at(pools: Seq<(String, MerchantPool)>, id: Seq<char>, place: int) -> bool {
    &&& 0 <= place < pools.len()
    &&& pools[place].0@ == id
    &&& forall|j: int| 0 <= j < place ==> pools[j].0@ != id
}

/// No pool in `pools` has the identifier `id`.
pub open spec fn no_pool(pools: Seq<(String, MerchantPool)>, id: Seq<char>) -> bool {
    forall|j: int| 0 <= j < pools.len() ==> pools[j].0@ != id
}

/// `text` in lower case, as `str::to_lowercase` gives it.
pub uninterp spec fn lowercase(text: Seq<char>) -> Seq<char>;

/// `str::to_lowercase`: the lower-case equivalent of the text, as a new
/// `String`; the same for the same text.
#[verifier::external_body]
pub(crate) fn to_lowercase(text: &String) -> (lower: String)
    ensures
        lower@ == lowercase(text@),
{
    text.to_lowercase()
}

/// The names of the chains that a client is configured for, in the order of
/// their clients.
#[derive(Clone, Debug)]
pub struct ChainClients {
    pub names: Vec<String>,
}

impl ChainClients {
    /// No name stands twice.
    pub open spec fn wf(self) -> bool {
        forall|i: int, j: int|
            0 <= i < j < self.names@.len() ==> self.names@[i]@ != self.names@[j]@
    }

    /// No chain configured.
    pub fn new() -> (clients: ChainClients)
        ensures
            clients.names@.len() == 0,
            clients.wf(),
    {
        ChainClients { names: Vec::new() }
    }

    /// Finds the client of a chain by the chain's name in any case: the
    /// clients are registered under lower-case names.
    pub fn find_lowercase(&self, chain: &String) -> (res: Result<usize, ChainError>)
        ensures
            match res {
                Ok(place) => named_at(self.names@, lowercase(chain@), place as int),
                Err(e) => e == ChainError::ChainNotAvailable && unnamed(
                    self.names@,
                    lowercase(chain@),
                ),
            },
    {
        let lower: String = to_lowercase(chain);
        self.find(&lower)
    }

    /// Gives a chain its place among the clients: the place it has, where
    /// its name is known, and a new one at the end where it is not.
    pub fn insert(&mut self, chain: String) -> (place: usize)
        ensures
            !unnamed(old(self).names@, chain@) ==> final(self).names == old(self).names,
            unnamed(old(self).names@, chain@) ==> final(self).names@ == old(self).names@.push(
                chain,
            ),
            named_at(final(self).names@, chain@, place as int),
            old(self).wf() ==> final(self).wf(),
    {
        match self.find(&chain) {
            Ok(place) => place,
            Err(_) => {
                self.names.push(chain);
                self.names.len() - 1
            },
        }
    }

    /// Finds the client of a chain by the chain's name.
    pub fn find(&self, chain: &String) -> (res: Result<usize, ChainError>)
        ensures
            match res {
                Ok(place) => named_at(self.names@, chain@, place as int),
                Err(e) => e == ChainError::ChainNotAvailable && unnamed(self.names@, chain@),
            },
    {
        let mut i: usize = 0;
        while i < self.names.len()
            invariant
                i <= self.names@.len(),
                forall|j: int| 0 <= j < i ==> self.names@[j]@ != chain@,
            decreases self.names@.len() - i,
        {
            if self.names[i] == *chain {
                return Ok(i);
            }
            i = i + 1;
        }
        Err(ChainError::ChainNotAvailable)
    }
}

/// Matches an order to a pool: the first pool, in the order that the chain
/// reported them, whose identifier is exactly the one that the order names.
pub fn find_pool(pools: &Vec<(String, MerchantPool)>, maker_order_id: &String) -> (res: Result<
    usize,
    ChainError,
>)
    ensures
        match res {
            Ok(place) => pool_at(pools@, maker_order_id@, place as int),
            Err(e) => e == ChainError::MakerNotFound && no_pool(pools@, maker_order_id@),
        },
{
    let mut i: usize = 0;
    while i < pools.len()
        invariant
            i <= pools@.len(),
            forall|j: int| 0 <= j < i ==> pools@[j].0@ != maker_order_id@,
        decreases pools@.len() - i,
    {
        if pools[i].0 == *maker_order_id {
            return Ok(i);
        }
        i = i + 1;
    }
    Err(ChainError::MakerNotFound)
}

} // verus!
