//! Base64, as the chains carry channel state and tokens. The encoding itself
//! is the `base64` crate's.

use vstd::prelude::*;
use vstd::string::*;
use crate::chain_clients::ChainError;

verus! {

/// The standard, padded base64 text that stands for `bytes`.
pub uninterp spec fn base64_text(bytes: Seq<u8>) -> Seq<char>;

/// The bytes that `text` stands for in base64 of the standard alphabet, as
/// the `base64` crate reads it; none where it refuses `text`.
pub uninterp spec fn base64_bytes(text: Seq<char>) -> Option<Seq<u8>>;

/// The length of the base64 text of `len` bytes: four characters for every
/// three bytes, and four more for a rest.
pub open spec fn base64_len(len: nat) -> nat {
    (len / 3) * 4 + if len % 3 == 0 {
        0nat
    } else {
        4nat
    }
}

/// The base64 text of `len` bytes can be held in memory.
pub open spec fn encodable(len: nat) -> bool {
    base64_len(len) <= isize::MAX
}

/// `base64::DecodeError`: why a text was refused. Nothing is read out of it.
#[verifier::external_type_specification]
#[verifier::external_body]
pub struct ExDecodeError(base64::DecodeError);

/// `base64::encode`: the standard, padded base64 text of `bytes`, which is
/// the same for the same bytes. The call panics where the length of the text
/// overflows or its buffer cannot be asked for; `requires` leaves those
/// lengths out.
#[verifier::external_body]
pub(crate) fn base64_encode(bytes: &Vec<u8>) -> (text: String)
    requires
        encodable(bytes@.len()),
    ensures
        text@ == base64_text(bytes@),
{
    base64::encode(bytes)
}

/// `base64::decode`: the bytes that a base64 text of the standard alphabet
/// stands for, or the reason why `text` is refused; the same for the same
/// text. The call panics only where a length that it computes from the
/// length of the text overflows, which no `String` is long enough for.
#[verifier::external_body]
pub(crate) fn base64_decode(text: &String) -> (bytes: Result<Vec<u8>, base64::DecodeError>)
    ensures
        match bytes {
            Ok(decoded) => base64_bytes(text@) == Some(decoded@),
            Err(_) => base64_bytes(text@) is None,
        },
{
    base64::decode(text)
}

/// The base64 text of `bytes`; none where the text would not fit in memory.
pub fn encode(bytes: &Vec<u8>) -> (text: Option<String>)
    ensures
        match text {
            Some(text) => encodable(bytes@.len()) && text@ == base64_text(bytes@),
            None => !encodable(bytes@.len()),
        },
{
    let groups: usize = bytes.len() / 3;
    let rest: usize = if bytes.len() % 3 == 0 {
        0
    } else {
        4
    };
    if groups <= (isize::MAX as usize - rest) / 4 {
        Some(base64_encode(bytes))
    } else {
        None
    }
}

/// The bytes that the base64 text `text` stands for; a chain error where
/// `text` is no base64 text.
pub fn decode(text: &String) -> (bytes: Result<Vec<u8>, ChainError>)
    ensures
        match bytes {
            Ok(decoded) => base64_bytes(text@) == Some(decoded@),
            Err(e) => base64_bytes(text@) is None && (e matches ChainError::ChainErr(detail)
                && detail@ == "invalid base64 in chain data"@),
        },
{
    match base64_decode(text) {
        Ok(decoded) => Ok(decoded),
        Err(_) => Err(ChainError::ChainErr(String::from_str("invalid base64 in chain data"))),
    }
}

} // verus!
