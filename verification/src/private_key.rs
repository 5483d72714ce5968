//! A typed secret-key value for one of the two supported algorithms.
//!
//! An Ed25519 key is exactly a 32-byte seed; an HMAC-SHA256 key may have
//! any length. The invariant is established at construction and carried by
//! `wf`; keys are value types, consumed by the operation that uses them and
//! never persisted.

use vstd::prelude::*;
use vstd::string::StringSliceAdditionalSpecFns;

use crate::algorithm::{spec_parse_algo, Algorithm};
use crate::errors::AuthError;
use crate::rng::random_bytes_32;

verus! {

/// A private key: an algorithm tag and the raw key material.
#[derive(Debug)]
pub struct PrivateKey {
    pub algo: Algorithm,
    pub key: Vec<u8>,
}

impl PrivateKey {
    /// The size invariant of the key material.
    pub open spec fn wf(&self) -> bool {
        self.algo is Ed25519 ==> self.key@.len() == 32
    }

    /// A fresh random 32-byte key for the named algorithm.
    pub fn new(algo: &str) -> (r: Result<PrivateKey, AuthError>)
        ensures
            match r {
                Ok(k) => spec_parse_algo(algo.spec_bytes()) == Some(k.algo) && k.key@.len() == 32
                    && k.wf(),
                Err(e) => spec_parse_algo(algo.spec_bytes()) is None && e
                    == AuthError::UnsupportedAlgorithm,
            },
    {
        let a = Algorithm::from_name(algo)?;
        Ok(PrivateKey { algo: a, key: random_bytes_32() })
    }

    /// A key wrapping existing material; Ed25519 material must be exactly
    /// 32 bytes.
    pub fn from_bytes(algo: &str, buf: &[u8]) -> (r: Result<PrivateKey, AuthError>)
        ensures
            match r {
                Ok(k) => spec_parse_algo(algo.spec_bytes()) == Some(k.algo) && k.key@ == buf@
                    && k.wf(),
                Err(e) => {
                    ||| (spec_parse_algo(algo.spec_bytes()) is None && e
                        == AuthError::UnsupportedAlgorithm)
                    ||| (spec_parse_algo(algo.spec_bytes()) == Some(Algorithm::Ed25519)
                        && buf@.len() != 32 && e == AuthError::InvalidKeyLength)
                },
            },
    {
        let a = Algorithm::from_name(algo)?;
        if matches!(a, Algorithm::Ed25519) && buf.len() != 32 {
            return Err(AuthError::InvalidKeyLength);
        }
        let mut key: Vec<u8> = Vec::new();
        key.extend_from_slice(buf);
        proof {
            assert(key@ =~= buf@);
        }
        Ok(PrivateKey { algo: a, key })
    }

    /// The algorithm of this key.
    pub fn algo(&self) -> (r: Algorithm)
        ensures
            r == self.algo,
    {
        self.algo
    }

    /// The raw key material.
    pub fn key(&self) -> (r: &[u8])
        ensures
            r@ == self.key@,
    {
        self.key.as_slice()
    }
}

} // verus!
