//! Ed25519 signing and verification, provided by the `ed25519-dalek` crate
//! behind trusted wrappers.
//!
//! The curve arithmetic is not modelled. Three names stand for what the
//! crate computes — the verifying key derived from a seed, the signature
//! over a message, and whether a triple verifies — together with the facts
//! the crate documents: a derived verifying key parses, and a signature
//! made from a seed verifies strictly under that seed's verifying key.

use vstd::prelude::*;
use ed25519_dalek::Signer;

verus! {

/// The 32-byte verifying key derived from a 32-byte Ed25519 seed.
pub uninterp spec fn ed25519_public_of(seed: Seq<u8>) -> Seq<u8>;

/// The 64-byte Ed25519 signature over `msg` under the key with seed `seed`.
pub uninterp spec fn ed25519_sign_of(seed: Seq<u8>, msg: Seq<u8>) -> Seq<u8>;

/// Whether `VerifyingKey::from_bytes` accepts these 32 bytes.
pub uninterp spec fn ed25519_pubkey_valid(pubk: Seq<u8>) -> bool;

/// Whether `sig` verifies strictly over `msg` under the key `pubk`.
pub uninterp spec fn ed25519_verifies(pubk: Seq<u8>, sig: Seq<u8>, msg: Seq<u8>) -> bool;

/// Relies on `SigningKey::from_bytes`, `SigningKey::verifying_key` and
/// `Signer::sign`: from a 32-byte seed they derive the 32-byte verifying
/// key and the 64-byte signature, functions of seed and message alone; the
/// crate documents that such a verifying key parses back with
/// `VerifyingKey::from_bytes` and that `verify_strict` accepts the
/// signature it produced.
#[verifier::external_body]
pub(crate) fn ed25519_sign_with_public(seed: &[u8], msg: &[u8]) -> (r: (Vec<u8>, Vec<u8>))
    requires
        seed@.len() == 32,
    ensures
        r.0@ == ed25519_public_of(seed@),
        r.0@.len() == 32,
        ed25519_pubkey_valid(r.0@),
        r.1@ == ed25519_sign_of(seed@, msg@),
        r.1@.len() == 64,
        ed25519_verifies(r.0@, r.1@, msg@),
{
    let mut seed_arr = [0u8; 32];
    seed_arr.copy_from_slice(seed);
    let signing_key = ed25519_dalek::SigningKey::from_bytes(&seed_arr);
    let public = signing_key.verifying_key().to_bytes().to_vec();
    let signature = signing_key.sign(msg).to_bytes().to_vec();
    (public, signature)
}

/// Relies on `VerifyingKey::from_bytes`: whether 32 bytes parse as a
/// well-formed verifying key.
#[verifier::external_body]
pub(crate) fn ed25519_pubkey_parses(pubk: &[u8]) -> (r: bool)
    requires
        pubk@.len() == 32,
    ensures
        r <==> ed25519_pubkey_valid(pubk@),
{
    let mut arr = [0u8; 32];
    arr.copy_from_slice(pubk);
    ed25519_dalek::VerifyingKey::from_bytes(&arr).is_ok()
}

/// Relies on `VerifyingKey::from_bytes`, `Signature::from_slice` and
/// `VerifyingKey::verify_strict`: whether the 64-byte signature verifies
/// strictly over the message under the well-formed 32-byte key.
#[verifier::external_body]
pub(crate) fn ed25519_verify_strict(pubk: &[u8], sig: &[u8], msg: &[u8]) -> (r: bool)
    requires
        pubk@.len() == 32,
        ed25519_pubkey_valid(pubk@),
        sig@.len() == 64,
    ensures
        r <==> ed25519_verifies(pubk@, sig@, msg@),
{
    let mut arr = [0u8; 32];
    arr.copy_from_slice(pubk);
    let key = match ed25519_dalek::VerifyingKey::from_bytes(&arr) {
        Ok(k) => k,
        Err(_) => return false,
    };
    let signature = match ed25519_dalek::Signature::from_slice(sig) {
        Ok(s) => s,
        Err(_) => return false,
    };
    key.verify_strict(msg, &signature).is_ok()
}

} // verus!
