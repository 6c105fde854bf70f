//! The cryptographic boundary of the core: a fixed 256-bit hash over the
//! canonical encoding, and sr25519 signature verification. Both are pure
//! functions of their byte-string arguments; the core names their results
//! and never restates their algorithms.

use vstd::prelude::*;

verus! {

/// The 32-byte BLAKE2b digest of a byte string.
pub uninterp spec fn blake2b_256(input: Seq<u8>) -> Seq<u8>;

/// Whether `signature` is a valid sr25519 signature by the key whose
/// 32-byte serialization is `public` over `message`, under the signing
/// context the host chain uses.
pub uninterp spec fn sr25519_verifies(public: Seq<u8>, message: Seq<u8>, signature: Seq<u8>) -> bool;

/// Relies on blake2b_simd::Params::hash with hash_length 32: a BLAKE2b
/// digest of 32 bytes, a function of the input bytes alone.
#[verifier::external_body]
pub(crate) fn blake2b_256_digest(input: &Vec<u8>) -> (r: Vec<u8>)
    ensures
        r@ == blake2b_256(input@),
        r@.len() == 32,
{
    let hash = blake2b_simd::Params::new().hash_length(32).hash(input.as_slice());
    hash.as_bytes().to_vec()
}

/// Relies on schnorrkel's PublicKey::from_bytes, Signature::from_bytes and
/// PublicKey::verify_simple under the signing context `substrate`: each is
/// deterministic in its byte-string arguments, so the verdict is a function
/// of the three byte strings alone; a key or signature that does not decode
/// verifies nothing.
#[verifier::external_body]
pub(crate) fn sr25519_verify(public: &Vec<u8>, message: &Vec<u8>, signature: &Vec<u8>) -> (r: bool)
    ensures
        r == sr25519_verifies(public@, message@, signature@),
{
    let pk = match schnorrkel::PublicKey::from_bytes(public.as_slice()) {
        Ok(pk) => pk,
        Err(_) => return false,
    };
    let sig = match schnorrkel::Signature::from_bytes(signature.as_slice()) {
        Ok(sig) => sig,
        Err(_) => return false,
    };
    pk.verify_simple(b"substrate", message.as_slice(), &sig).is_ok()
}

} // verus!
