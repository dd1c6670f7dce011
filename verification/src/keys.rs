//! Addresses, keypairs and signatures as the bytes they are, and the decoders
//! that turn request text into them.
//!
//! The curve arithmetic is the `solana_sdk` crate's. A keypair is kept here as
//! its 64 bytes (seed, then public key), an address as 32 bytes and a
//! signature as 64, so that everything the library decides is decided on
//! plain values.

use crate::codec::{
    base58_decode, base58_encode, base64_decode, base64_encode, spec_base58_decode,
    spec_base58_encode, spec_base64_decode, spec_base64_encode,
};
use crate::error::{result_view, ApiError};
use solana_sdk::signature::Signer;
use vstd::prelude::*;

verus! {

/// Number of bytes in an address.
pub const ADDRESS_BYTES: usize = 32;

/// Number of bytes in a keypair: the seed, then the public key.
pub const KEYPAIR_BYTES: usize = 64;

/// Number of bytes in a signature.
pub const SIGNATURE_BYTES: usize = 64;

/// Whether `solana_sdk`'s `Keypair` accepts `bytes`: they are 64 bytes and the
/// public key derived from the first 32 is the last 32.
pub uninterp spec fn spec_keypair_accepts(bytes: Seq<u8>) -> bool;

/// The Ed25519 signature that the keypair with these 64 bytes puts on
/// `message`.
pub uninterp spec fn spec_sign(keypair: Seq<u8>, message: Seq<u8>) -> Seq<u8>;

/// Whether `signature` verifies for `message` under the public key `pubkey`,
/// by the strict rules of `solana_sdk`'s `Signature::verify`.
pub uninterp spec fn spec_verify(signature: Seq<u8>, pubkey: Seq<u8>, message: Seq<u8>) -> bool;

/// The address of an account or a program: 32 bytes, written as base58.
#[derive(Clone, Copy, Debug)]
pub struct Address {
    pub bytes: [u8; 32],
}

impl View for Address {
    type V = Seq<u8>;

    open spec fn view(&self) -> Seq<u8> {
        self.bytes@
    }
}

/// A secret and public key pair, as the 64 bytes of its encoding. Every value
/// of this type is one that `solana_sdk`'s `Keypair` accepts.
#[derive(Debug)]
pub struct Keypair {
    bytes: [u8; 64],
}

impl View for Keypair {
    type V = Seq<u8>;

    closed spec fn view(&self) -> Seq<u8> {
        self.bytes@
    }
}

impl Keypair {
    /// The invariant of the type: the bytes are a keypair encoding that the
    /// signing library accepts.
    #[verifier::type_invariant]
    pub closed spec fn wf(&self) -> bool {
        spec_keypair_accepts(self.bytes@)
    }
}

/// A signature: 64 bytes, written as base64 in requests and responses.
#[derive(Clone, Copy, Debug)]
pub struct Signature {
    pub bytes: [u8; 64],
}

impl View for Signature {
    type V = Seq<u8>;

    open spec fn view(&self) -> Seq<u8> {
        self.bytes@
    }
}

/// Copies a vector of exactly 32 bytes into an array.
fn array_32(bytes: &Vec<u8>) -> (out: [u8; 32])
    requires
        bytes@.len() == 32,
    ensures
        out@ == bytes@,
{
    let mut out = [0u8; 32];
    let mut i: usize = 0;
    while i < 32
        invariant
            i <= 32,
            bytes@.len() == 32,
            forall|j: int| 0 <= j < i ==> out@[j] == bytes@[j],
        decreases 32 - i,
    {
        out[i] = bytes[i];
        i = i + 1;
    }
    assert(out@ =~= bytes@);
    out
}

/// Copies a vector of exactly 64 bytes into an array.
fn array_64(bytes: &Vec<u8>) -> (out: [u8; 64])
    requires
        bytes@.len() == 64,
    ensures
        out@ == bytes@,
{
    let mut out = [0u8; 64];
    let mut i: usize = 0;
    while i < 64
        invariant
            i <= 64,
            bytes@.len() == 64,
            forall|j: int| 0 <= j < i ==> out@[j] == bytes@[j],
        decreases 64 - i,
    {
        out[i] = bytes[i];
        i = i + 1;
    }
    assert(out@ =~= bytes@);
    out
}

/// What an address field of a request decodes to: the 32 bytes its base58
/// text stands for, or `InvalidPublicKey` where the text is not base58 or
/// stands for fewer or more bytes.
pub open spec fn parse_pubkey_spec(text: Seq<char>) -> Result<Seq<u8>, ApiError> {
    match spec_base58_decode(text) {
        Some(bytes) => if bytes.len() == 32 {
            Ok(bytes)
        } else {
            Err(ApiError::InvalidPublicKey)
        },
        None => Err(ApiError::InvalidPublicKey),
    }
}

/// What a secret field of a request decodes to: the 64 bytes its base58 text
/// stands for, where the signing library accepts them as a keypair, and
/// `InvalidSecretKey` otherwise.
pub open spec fn keypair_from_base58_spec(text: Seq<char>) -> Result<Seq<u8>, ApiError> {
    match spec_base58_decode(text) {
        Some(bytes) => if bytes.len() == 64 && spec_keypair_accepts(bytes) {
            Ok(bytes)
        } else {
            Err(ApiError::InvalidSecretKey)
        },
        None => Err(ApiError::InvalidSecretKey),
    }
}

/// What a signature field of a request decodes to: the 64 bytes its base64
/// text stands for; `InvalidBase64` where the text is not base64, and
/// `InvalidSignatureFormat` where it stands for fewer or more bytes.
pub open spec fn decode_signature_spec(text: Seq<char>) -> Result<Seq<u8>, ApiError> {
    match spec_base64_decode(text) {
        Some(bytes) => if bytes.len() == 64 {
            Ok(bytes)
        } else {
            Err(ApiError::InvalidSignatureFormat)
        },
        None => Err(ApiError::InvalidBase64),
    }
}

/// Decodes the base58 text of an address.
pub fn parse_pubkey(text: &str) -> (result: Result<Address, ApiError>)
    ensures
        result_view(result) == parse_pubkey_spec(text@),
{
    match base58_decode(text) {
        Ok(bytes) => {
            if bytes.len() == ADDRESS_BYTES {
                Ok(Address { bytes: array_32(&bytes) })
            } else {
                Err(ApiError::InvalidPublicKey)
            }
        },
        Err(_) => Err(ApiError::InvalidPublicKey),
    }
}

/// Decodes the base58 text of a keypair and has the signing library check it.
pub fn keypair_from_base58(text: &str) -> (result: Result<Keypair, ApiError>)
    ensures
        result_view(result) == keypair_from_base58_spec(text@),
{
    match base58_decode(text) {
        Ok(bytes) => {
            if bytes.len() == KEYPAIR_BYTES && keypair_accepts(bytes.as_slice()) {
                Ok(Keypair { bytes: array_64(&bytes) })
            } else {
                Err(ApiError::InvalidSecretKey)
            }
        },
        Err(_) => Err(ApiError::InvalidSecretKey),
    }
}

/// Decodes the base64 text of a signature.
pub fn decode_signature(text: &str) -> (result: Result<Signature, ApiError>)
    ensures
        result_view(result) == decode_signature_spec(text@),
{
    match base64_decode(text) {
        Ok(bytes) => {
            match signature_from_bytes(bytes.as_slice()) {
                Ok(signature) => Ok(signature),
                Err(_) => Err(ApiError::InvalidSignatureFormat),
            }
        },
        Err(_) => Err(ApiError::InvalidBase64),
    }
}

impl Address {
    /// The base58 text of the address.
    pub fn to_base58(&self) -> (text: String)
        ensures
            text@ == spec_base58_encode(self@),
            parse_pubkey_spec(text@) == Ok::<Seq<u8>, ApiError>(self@),
            text@.len() > 0,
    {
        base58_encode(self.bytes.as_slice())
    }
}

impl Keypair {
    /// The address of the pair: its public key, the last 32 of the 64 bytes.
    pub fn pubkey(&self) -> (address: Address)
        ensures
            address@ == self@.subrange(32, 64),
    {
        proof {
            use_type_invariant(self);
        }
        keypair_pubkey(self)
    }

    /// Signs `message`, byte for byte as it is given.
    pub fn sign_message(&self, message: &[u8]) -> (signature: Signature)
        ensures
            signature@ == spec_sign(self@, message@),
    {
        proof {
            use_type_invariant(self);
        }
        keypair_sign(self, message)
    }

    /// The base58 text of the 64 bytes: the form in which a secret travels.
    pub fn to_base58(&self) -> (text: String)
        ensures
            text@ == spec_base58_encode(self@),
            keypair_from_base58_spec(text@) == Ok::<Seq<u8>, ApiError>(self@),
            text@.len() > 0,
    {
        proof {
            use_type_invariant(self);
        }
        base58_encode(self.bytes.as_slice())
    }
}

impl Signature {
    /// The base64 text of the signature.
    pub fn to_base64(&self) -> (text: String)
        ensures
            text@ == spec_base64_encode(self@),
            decode_signature_spec(text@) == Ok::<Seq<u8>, ApiError>(self@),
            text@.len() > 0,
    {
        base64_encode(self.bytes.as_slice())
    }
}

/// Calls `solana_sdk::signature::Keypair::new()`, which draws a random seed,
/// and keeps the bytes of the pair.
///
/// Trusted: whatever the seed, the bytes are ones that the same library
/// accepts as a keypair (they are the seed and the public key it derived).
#[verifier::external_body]
pub(crate) fn keypair_generate() -> (keypair: Keypair)
    ensures
        keypair.wf(),
{
    Keypair { bytes: solana_sdk::signature::Keypair::new().to_bytes() }
}

/// Calls `solana_sdk::signature::Keypair::try_from(bytes)` and reports
/// whether it succeeded.
///
/// Trusted: the answer is the one named by [`spec_keypair_accepts`], and only
/// 64 bytes are ever accepted.
#[verifier::external_body]
fn keypair_accepts(bytes: &[u8]) -> (accepted: bool)
    ensures
        accepted == spec_keypair_accepts(bytes@),
        accepted ==> bytes@.len() == 64,
{
    solana_sdk::signature::Keypair::try_from(bytes).is_ok()
}

/// Calls `pubkey()` on the `solana_sdk` keypair with these bytes, which must
/// be ones it accepts.
///
/// Trusted: the public key is the last 32 of the 64 bytes (the library
/// accepts a keypair only if the key it derives from the seed equals them).
#[verifier::external_body]
fn keypair_pubkey(keypair: &Keypair) -> (address: Address)
    requires
        keypair.wf(),
    ensures
        address@ == keypair@.subrange(32, 64),
{
    let pair = solana_sdk::signature::Keypair::try_from(&keypair.bytes[..]).unwrap();
    Address { bytes: pair.pubkey().to_bytes() }
}

/// Calls `sign_message(message)` on the `solana_sdk` keypair with these
/// bytes, which must be ones it accepts.
///
/// Trusted: the signature is the one named by [`spec_sign`]; Ed25519 signing
/// draws no randomness, so it depends on the keypair and the message alone.
#[verifier::external_body]
fn keypair_sign(keypair: &Keypair, message: &[u8]) -> (signature: Signature)
    requires
        keypair.wf(),
    ensures
        signature@ == spec_sign(keypair@, message@),
{
    let pair = solana_sdk::signature::Keypair::try_from(&keypair.bytes[..]).unwrap();
    Signature { bytes: pair.sign_message(message).into() }
}

/// The error of converting a slice of the wrong length into an array,
/// carried through unread.
#[verifier::external_type_specification]
#[verifier::external_body]
pub struct ExTryFromSliceError(core::array::TryFromSliceError);

/// Calls `solana_sdk::signature::Signature::try_from(bytes)`.
///
/// Trusted: the call succeeds exactly on 64 bytes and keeps them as they are.
#[verifier::external_body]
fn signature_from_bytes(bytes: &[u8]) -> (signature: Result<
    Signature,
    core::array::TryFromSliceError,
>)
    ensures
        signature is Ok <==> bytes@.len() == 64,
        signature is Ok ==> signature->Ok_0@ == bytes@,
{
    solana_sdk::signature::Signature::try_from(bytes).map(|s| Signature { bytes: s.into() })
}

/// Calls `verify(pubkey, message)` on the `solana_sdk` signature with these
/// bytes.
///
/// Trusted: the verdict is the one named by [`spec_verify`].
#[verifier::external_body]
pub(crate) fn signature_verify(signature: &Signature, pubkey: &Address, message: &[u8]) -> (valid:
    bool)
    ensures
        valid == spec_verify(signature@, pubkey@, message@),
{
    solana_sdk::signature::Signature::from(signature.bytes).verify(&pubkey.bytes, message)
}

} // verus!
