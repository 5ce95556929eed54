//! The values that the channel cryptography produces and checks. This core
//! carries them and never looks inside: each is held in its serialised form,
//! beside the few plain fields that the engines read.

use vstd::prelude::*;
use crate::error::ProtocolError;

verus! {

/// A public key of one party.
#[derive(Debug)]
pub struct PublicKey {
    pub bytes: Vec<u8>,
}

impl View for PublicKey {
    type V = Seq<u8>;

    open spec fn view(&self) -> Seq<u8> {
        self.bytes@
    }
}

impl Clone for PublicKey {
    fn clone(&self) -> (copy: Self)
        ensures
            copy@ == self@,
    {
        PublicKey { bytes: self.bytes.clone() }
    }
}

/// A commitment to hidden channel values.
#[derive(Debug)]
pub struct Commitment {
    pub bytes: Vec<u8>,
}

impl View for Commitment {
    type V = Seq<u8>;

    open spec fn view(&self) -> Seq<u8> {
        self.bytes@
    }
}

impl Clone for Commitment {
    fn clone(&self) -> (copy: Self)
        ensures
            copy@ == self@,
    {
        Commitment { bytes: self.bytes.clone() }
    }
}

/// The proof that a commitment is well formed.
#[derive(Debug)]
pub struct CommitmentProof {
    pub bytes: Vec<u8>,
}

impl View for CommitmentProof {
    type V = Seq<u8>;

    open spec fn view(&self) -> Seq<u8> {
        self.bytes@
    }
}

impl Clone for CommitmentProof {
    fn clone(&self) -> (copy: Self)
        ensures
            copy@ == self@,
    {
        CommitmentProof { bytes: self.bytes.clone() }
    }
}

/// A blind signature of the maker: a close token or a pay token.
#[derive(Debug)]
pub struct Signature {
    pub bytes: Vec<u8>,
}

impl View for Signature {
    type V = Seq<u8>;

    open spec fn view(&self) -> Seq<u8> {
        self.bytes@
    }
}

impl Clone for Signature {
    fn clone(&self) -> (copy: Self)
        ensures
            copy@ == self@,
    {
        Signature { bytes: self.bytes.clone() }
    }
}

/// The token by which the taker gives up a superseded secret state.
#[derive(Debug)]
pub struct RevokeToken {
    pub bytes: Vec<u8>,
}

impl View for RevokeToken {
    type V = Seq<u8>;

    open spec fn view(&self) -> Seq<u8> {
        self.bytes@
    }
}

impl Clone for RevokeToken {
    fn clone(&self) -> (copy: Self)
        ensures
            copy@ == self@,
    {
        RevokeToken { bytes: self.bytes.clone() }
    }
}

/// The signed artifact by which the taker closes the channel on a chain.
#[derive(Debug)]
pub struct CloseMessage {
    pub bytes: Vec<u8>,
}

impl View for CloseMessage {
    type V = Seq<u8>;

    open spec fn view(&self) -> Seq<u8> {
        self.bytes@
    }
}

impl Clone for CloseMessage {
    fn clone(&self) -> (copy: Self)
        ensures
            copy@ == self@,
    {
        CloseMessage { bytes: self.bytes.clone() }
    }
}

/// The proof of one payment, with the amount it claims.
#[derive(Clone, Debug)]
pub struct Payment {
    pub amount: i64,
    pub proof: Vec<u8>,
}

/// The taker's secret channel material.
#[derive(Clone, Debug)]
pub struct CustomerState {
    /// The key that the taker binds into the channel token.
    pub pk_c: PublicKey,
    /// The wallet key of the current secret state.
    pub wpk: PublicKey,
    pub secret: Vec<u8>,
}

/// The maker's secret channel material.
#[derive(Clone, Debug)]
pub struct MerchantState {
    pub pk: PublicKey,
    pub secret: Vec<u8>,
}

/// The configuration that both parties of a channel share.
#[derive(Clone, Debug)]
pub struct ChannelState {
    pub name: String,
    pub pay_init: bool,
    pub channel_established: bool,
    pub third_party: bool,
    /// The public parameters of the channel.
    pub params: Vec<u8>,
}

/// What identifies a channel: the keys of both parties and the parameters
/// they are bound under.
pub struct ChannelIdView {
    pub merchant_key: Seq<u8>,
    pub customer_key: Seq<u8>,
    pub params: Seq<u8>,
}

/// The identity of a channel, derived from its token once both keys are bound.
#[derive(Clone, Debug)]
pub struct ChannelId {
    pub merchant_key: PublicKey,
    pub customer_key: PublicKey,
    pub params: Vec<u8>,
}

impl View for ChannelId {
    type V = ChannelIdView;

    open spec fn view(&self) -> ChannelIdView {
        ChannelIdView {
            merchant_key: self.merchant_key@,
            customer_key: self.customer_key@,
            params: self.params@,
        }
    }
}

/// The public key material of a channel. The maker creates it with its own
/// key; the taker's key is bound into it once and stays.
#[derive(Clone, Debug)]
pub struct ChannelToken {
    pub pk_c: Option<PublicKey>,
    pub pk_m: PublicKey,
    pub params: Vec<u8>,
}

impl ChannelToken {
    /// The identity of the channel once `customer_key` is bound into this token.
    pub open spec fn identity_with(self, customer_key: Seq<u8>) -> ChannelIdView {
        ChannelIdView { merchant_key: self.pk_m@, customer_key, params: self.params@ }
    }

    /// The identity of the channel: none while the taker's key is not bound.
    pub open spec fn identity(self) -> Option<ChannelIdView> {
        match self.pk_c {
            Some(key) => Some(self.identity_with(key@)),
            None => None,
        }
    }

    /// Binds the taker's key. A token that holds one already refuses.
    pub fn set_customer_pk(&mut self, key: PublicKey) -> (bound: Result<(), ProtocolError>)
        ensures
            old(self).pk_c is Some ==> bound == Err::<(), ProtocolError>(
                ProtocolError::AlreadyBound,
            ) && *final(self) == *old(self),
            old(self).pk_c is None ==> bound is Ok && final(self).pk_c == Some(key)
                && final(self).pk_m == old(self).pk_m && final(self).params == old(self).params,
    {
        if self.pk_c.is_some() {
            return Err(ProtocolError::AlreadyBound);
        }
        self.pk_c = Some(key);
        Ok(())
    }

    /// Derives the identity of the channel from the bound token.
    pub fn compute_channel_id(&self) -> (id: Option<ChannelId>)
        ensures
            match id {
                Some(id) => self.identity() == Some(id@),
                None => self.identity() is None,
            },
    {
        match &self.pk_c {
            Some(key) => Some(
                ChannelId {
                    merchant_key: self.pk_m.clone(),
                    customer_key: key.clone(),
                    params: self.params.clone(),
                },
            ),
            None => None,
        }
    }
}

} // verus!
