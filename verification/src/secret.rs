//! The deployment's root secret and keyed derivation of purpose-scoped
//! sub-secrets.
//!
//! One root secret fans out into the admin token, the invite-minting token
//! and the invite-signing key via `HMAC-SHA256(root, label)`. Derivation is
//! total and deterministic; distinct labels yield independent secrets.
//! Inbound gate tokens are hex-decoded and compared in constant time.

use vstd::prelude::*;
use vstd::string::StringSliceAdditionalSpecFns;
use vstd::string::StrSliceExecFns;
use vstd::utf8::encode_utf8;

use crate::ctcmp::ct_bytes_eq;
use crate::errors::AuthError;
use crate::hashes::{hmac_sha256, hmac_sha256_of};
use crate::hexcodec::{hex_decode, hex_encode, lemma_hex_of_len, spec_hex_decode, spec_hex_of};
use crate::rng::random_bytes_32;

verus! {

/// The 32-byte secret derived from root key material for a purpose label.
pub open spec fn derived_secret_of(secret: Seq<u8>, label: Seq<char>) -> Seq<u8> {
    hmac_sha256_of(secret, encode_utf8(label))
}

/// The process-wide root secret: opaque key material, set once at startup,
/// immutable, never persisted by the core.
#[derive(Debug, Clone)]
pub struct PrimarySecret {
    pub secret: Vec<u8>,
}

impl PrimarySecret {
    /// A root secret from configured text, used as raw key material.
    pub fn new(secret: String) -> (r: PrimarySecret)
        ensures
            r.secret@ == encode_utf8(secret@),
    {
        PrimarySecret { secret: secret.as_str().as_bytes_vec() }
    }

    /// A root secret from 32 fresh random bytes, kept hex-encoded. A
    /// degraded mode for deployments without a configured secret: derived
    /// tokens do not survive a restart.
    pub fn new_random() -> (r: PrimarySecret)
        ensures
            r.secret@.len() == 64,
            exists|b: Seq<u8>| b.len() == 32 && r.secret@ == spec_hex_of(b),
    {
        let buf = random_bytes_32();
        let secret = hex_encode(buf.as_slice());
        proof {
            lemma_hex_of_len(buf@);
            assert(buf@.len() == 32 && secret@ == spec_hex_of(buf@));
        }
        PrimarySecret { secret }
    }

    /// The purpose-scoped secret for a label: `HMAC-SHA256(root, label)`,
    /// always 32 bytes, total and deterministic.
    pub fn derive_secret(&self, name: &str) -> (r: Vec<u8>)
        ensures
            r@ == derived_secret_of(self.secret@, name@),
            r@.len() == 32,
    {
        hmac_sha256(self.secret.as_slice(), name.as_bytes())
    }

    /// Gate check for a privileged endpoint: hex-decode the presented token
    /// and compare it in constant time against the derived secret for the
    /// label. Malformed hex and mismatches are both `Unauthorized`.
    pub fn check_derived_token(&self, name: &str, token_hex: &str) -> (r: Result<(), AuthError>)
        ensures
            r is Ok <==> spec_hex_decode(token_hex.spec_bytes()) == Some(
                derived_secret_of(self.secret@, name@),
            ),
            r is Err ==> r == Err::<(), AuthError>(AuthError::Unauthorized),
    {
        let derived = self.derive_secret(name);
        match hex_decode(token_hex.as_bytes()) {
            None => Err(AuthError::Unauthorized),
            Some(token) => {
                if ct_bytes_eq(token.as_slice(), derived.as_slice()) {
                    Ok(())
                } else {
                    Err(AuthError::Unauthorized)
                }
            },
        }
    }
}

/// Determinism of derivation: two results of `derive_secret` for the same
/// root material and label are identical byte strings.
pub proof fn lemma_derive_secret_deterministic(
    secret: Seq<u8>,
    label: Seq<char>,
    r1: Seq<u8>,
    r2: Seq<u8>,
)
    requires
        r1 == derived_secret_of(secret, label),
        r2 == derived_secret_of(secret, label),
    ensures
        r1 == r2,
{
}

} // verus!
