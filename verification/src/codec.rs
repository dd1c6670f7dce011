//! Text encodings of byte strings: base58 for addresses and keypairs, base64
//! for signatures and instruction payloads.
//!
//! The encoders and decoders themselves are the `bs58` and `base64` crates.
//! Each gets a name in specifications, and the functions below say how the
//! executable calls relate to those names. Nothing in this module is proved:
//! it is the boundary on which the rest of the library stands.

use base64::Engine;
use vstd::prelude::*;

verus! {

/// The base58 text (Bitcoin alphabet) that `bs58::encode` produces for `bytes`.
pub uninterp spec fn spec_base58_encode(bytes: Seq<u8>) -> Seq<char>;

/// What `bs58::decode` makes of `text`: the bytes, or `None` where the text is
/// not base58.
pub uninterp spec fn spec_base58_decode(text: Seq<char>) -> Option<Seq<u8>>;

/// The padded standard-alphabet base64 text that `base64` produces for `bytes`.
pub uninterp spec fn spec_base64_encode(bytes: Seq<u8>) -> Seq<char>;

/// What the padded standard-alphabet base64 decoder makes of `text`: the
/// bytes, or `None` where the text is not canonical base64.
pub uninterp spec fn spec_base64_decode(text: Seq<char>) -> Option<Seq<u8>>;

/// The error of `bs58::decode`, carried through unread.
#[verifier::external_type_specification]
#[verifier::external_body]
pub struct ExBase58Error(bs58::decode::Error);

/// The error of the base64 decoder, carried through unread.
#[verifier::external_type_specification]
#[verifier::external_body]
pub struct ExBase64Error(base64::DecodeError);

/// Calls `bs58::encode(bytes).into_string()`.
///
/// Trusted: the result is the text named by [`spec_base58_encode`];
/// decoding that text gives `bytes` back (base58 is a lossless encoding:
/// leading zero bytes become leading `1` digits, the rest is the number in
/// base 58); and the text of at least one byte has at least one digit.
#[verifier::external_body]
pub(crate) fn base58_encode(bytes: &[u8]) -> (text: String)
    ensures
        text@ == spec_base58_encode(bytes@),
        spec_base58_decode(text@) == Some(bytes@),
        bytes@.len() > 0 ==> text@.len() > 0,
{
    bs58::encode(bytes).into_string()
}

/// Calls `bs58::decode(text).into_vec()`.
///
/// Trusted: the call succeeds exactly where [`spec_base58_decode`] names
/// bytes, and then returns those bytes.
#[verifier::external_body]
pub(crate) fn base58_decode(text: &str) -> (bytes: Result<Vec<u8>, bs58::decode::Error>)
    ensures
        bytes is Ok <==> spec_base58_decode(text@) is Some,
        bytes is Ok ==> spec_base58_decode(text@) == Some(bytes->Ok_0@),
{
    bs58::decode(text).into_vec()
}

/// Calls `base64::engine::general_purpose::STANDARD.encode(bytes)`.
///
/// Trusted: the result is the text named by [`spec_base64_encode`];
/// decoding that text gives `bytes` back; and the text of at least one byte
/// has at least one character (four for every three bytes begun).
#[verifier::external_body]
pub(crate) fn base64_encode(bytes: &[u8]) -> (text: String)
    ensures
        text@ == spec_base64_encode(bytes@),
        spec_base64_decode(text@) == Some(bytes@),
        bytes@.len() > 0 ==> text@.len() > 0,
{
    base64::engine::general_purpose::STANDARD.encode(bytes)
}

/// Calls `base64::engine::general_purpose::STANDARD.decode(text)`.
///
/// Trusted: the call succeeds exactly where [`spec_base64_decode`] names
/// bytes, and then returns those bytes.
#[verifier::external_body]
pub(crate) fn base64_decode(text: &str) -> (bytes: Result<Vec<u8>, base64::DecodeError>)
    ensures
        bytes is Ok <==> spec_base64_decode(text@) is Some,
        bytes is Ok ==> spec_base64_decode(text@) == Some(bytes->Ok_0@),
{
    base64::engine::general_purpose::STANDARD.decode(text)
}

} // verus!
