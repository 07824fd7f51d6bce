//! The signing primitive, behind trusted declarations. Ed25519 signing and
//! verification are deterministic functions of their byte arguments, so the
//! results carry names (`pk_of`, `sig_of`, `sig_ok`) that the rest of the
//! library reasons with; nothing else is assumed of the algorithm.

use vstd::prelude::*;
use ed25519_dalek::Signer;

verus! {

/// The verifying key derived from a 32-byte signing seed.
pub uninterp spec fn pk_of(seed: Seq<u8>) -> Seq<u8>;

/// The Ed25519 signature a 32-byte seed produces over a message.
pub uninterp spec fn sig_of(seed: Seq<u8>, msg: Seq<u8>) -> Seq<u8>;

/// The outcome of strict Ed25519 verification of a signature against key
/// bytes and a message.
pub uninterp spec fn sig_ok(pk: Seq<u8>, msg: Seq<u8>, sig: Seq<u8>) -> bool;

/// Relies on ed25519_dalek::SigningKey::verifying_key (with
/// VerifyingKey::to_bytes): the verifying key is computed from the secret
/// seed alone and is 32 bytes long.
#[verifier::external_body]
pub(crate) fn derive_public_key(seed: &[u8]) -> (r: Vec<u8>)
    requires
        seed@.len() == 32,
    ensures
        r@ == pk_of(seed@),
        r@.len() == 32,
{
    let seed: &[u8; 32] = seed.try_into().unwrap();
    let sk = ed25519_dalek::SigningKey::from_bytes(seed);
    sk.verifying_key().to_bytes().to_vec()
}

/// Relies on ed25519_dalek::SigningKey::sign: Ed25519 signing (RFC 8032) is
/// a deterministic function of the seed and the message, the signature is 64
/// bytes, and VerifyingKey::verify_strict accepts it under the seed's own
/// verifying key.
#[verifier::external_body]
pub(crate) fn sign_bytes(seed: &[u8], msg: &[u8]) -> (r: Vec<u8>)
    requires
        seed@.len() == 32,
    ensures
        r@ == sig_of(seed@, msg@),
        r@.len() == 64,
        sig_ok(pk_of(seed@), msg@, r@),
{
    let seed: &[u8; 32] = seed.try_into().unwrap();
    let sk = ed25519_dalek::SigningKey::from_bytes(seed);
    sk.sign(msg).to_vec()
}

/// Relies on ed25519_dalek::VerifyingKey::{from_bytes, verify_strict}: the
/// verification outcome depends on the key bytes, the message and the
/// signature bytes alone; bytes that form no key or no signature verify
/// nothing.
#[verifier::external_body]
pub(crate) fn verify_bytes(pk: &[u8], msg: &[u8], sig: &[u8]) -> (r: bool)
    ensures
        r == sig_ok(pk@, msg@, sig@),
{
    let Ok(pk): Result<&[u8; 32], _> = pk.try_into() else {
        return false;
    };
    let Ok(key) = ed25519_dalek::VerifyingKey::from_bytes(pk) else {
        return false;
    };
    let Ok(sig): Result<&[u8; 64], _> = sig.try_into() else {
        return false;
    };
    key.verify_strict(msg, &ed25519_dalek::Signature::from_bytes(sig)).is_ok()
}

} // verus!
