use vstd::prelude::*;
use vstd::string::StringSliceAdditionalSpecFns;

verus! {

/// The Ed25519 verification predicate: whether `signature` is a valid
/// signature by the key encoded in `public_key` over the bytes of `message`.
/// The verdict is a deterministic function of the three byte sequences alone;
/// its definition (point decompression and the curve equation) stays with the
/// outside implementation.
pub uninterp spec fn ed25519_valid(public_key: Seq<u8>, message: Seq<u8>, signature: Seq<u8>) -> bool;

/// Relies on `ed25519_dalek::VerifyingKey::from_bytes`,
/// `ed25519_dalek::Signature::from_slice` and
/// `ed25519_dalek::Verifier::verify`: verification is deterministic in the
/// key, message and signature bytes, never panics, and a key or signature
/// that does not decode (wrong length, or a point that does not decompress)
/// verifies as false.
#[verifier::external_body]
pub(crate) fn ed25519_verify(public_key: &Vec<u8>, message: &str, signature: &Vec<u8>) -> (r: bool)
    ensures
        r == ed25519_valid(public_key@, message.spec_bytes(), signature@),
{
    let key_bytes: [u8; 32] = match public_key.as_slice().try_into() {
        Ok(b) => b,
        Err(_) => return false,
    };
    let key = match ed25519_dalek::VerifyingKey::from_bytes(&key_bytes) {
        Ok(k) => k,
        Err(_) => return false,
    };
    let sig = match ed25519_dalek::Signature::from_slice(signature.as_slice()) {
        Ok(s) => s,
        Err(_) => return false,
    };
    ed25519_dalek::Verifier::verify(&key, message.as_bytes(), &sig).is_ok()
}

/// Relies on `uuid::Uuid::new_v4` and `uuid::Uuid::as_u128`: draws a fresh
/// random version-4 identifier. Nothing is assumed of the value — it is
/// random, and two calls may differ.
#[verifier::external_body]
pub(crate) fn fresh_account_id() -> u128 {
    uuid::Uuid::new_v4().as_u128()
}

} // verus!
