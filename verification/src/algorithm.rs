//! The two supported signature algorithms, as a genuine sum type.
//!
//! On the wire an algorithm is a name: `"ed25519"` or `"hmac-sha256"`.
//! The wire names are specified as concrete ASCII byte strings so that the
//! envelope grammar can reason about them byte by byte.

use vstd::prelude::*;
use vstd::string::StringSliceAdditionalSpecFns;

use crate::bytesutil::bytes_eq;
use crate::errors::AuthError;

verus! {

/// A signature algorithm: asymmetric signing or symmetric authentication.
#[derive(Clone, Copy, Debug, PartialEq, Eq, Structural)]
pub enum Algorithm {
    Ed25519,
    HmacSha256,
}

/// The ASCII bytes of `"ed25519"`.
pub open spec fn ed25519_name_bytes() -> Seq<u8> {
    seq![101u8, 100u8, 50u8, 53u8, 53u8, 49u8, 57u8]
}

/// The ASCII bytes of `"hmac-sha256"`.
pub open spec fn hmac_name_bytes() -> Seq<u8> {
    seq![104u8, 109u8, 97u8, 99u8, 45u8, 115u8, 104u8, 97u8, 50u8, 53u8, 54u8]
}

/// The wire name of an algorithm, as ASCII bytes.
pub open spec fn algo_name_bytes(a: Algorithm) -> Seq<u8> {
    match a {
        Algorithm::Ed25519 => ed25519_name_bytes(),
        Algorithm::HmacSha256 => hmac_name_bytes(),
    }
}

/// The algorithm a wire name stands for, if any.
pub open spec fn spec_parse_algo(s: Seq<u8>) -> Option<Algorithm> {
    if s == ed25519_name_bytes() {
        Some(Algorithm::Ed25519)
    } else if s == hmac_name_bytes() {
        Some(Algorithm::HmacSha256)
    } else {
        None
    }
}

/// The ASCII bytes of `"ed25519"`, as a vector.
pub(crate) fn ed25519_name_vec() -> (r: Vec<u8>)
    ensures
        r@ == ed25519_name_bytes(),
{
    let r: Vec<u8> = vec![101u8, 100u8, 50u8, 53u8, 53u8, 49u8, 57u8];
    proof {
        assert(r@ =~= ed25519_name_bytes());
    }
    r
}

/// The ASCII bytes of `"hmac-sha256"`, as a vector.
pub(crate) fn hmac_name_vec() -> (r: Vec<u8>)
    ensures
        r@ == hmac_name_bytes(),
{
    let r: Vec<u8> = vec![104u8, 109u8, 97u8, 99u8, 45u8, 115u8, 104u8, 97u8, 50u8, 53u8, 54u8];
    proof {
        assert(r@ =~= hmac_name_bytes());
    }
    r
}

impl Algorithm {
    /// The algorithm named by a wire name, or `UnsupportedAlgorithm`.
    pub fn from_name(name: &str) -> (r: Result<Algorithm, AuthError>)
        ensures
            match r {
                Ok(a) => spec_parse_algo(name.spec_bytes()) == Some(a),
                Err(e) => spec_parse_algo(name.spec_bytes()) is None && e
                    == AuthError::UnsupportedAlgorithm,
            },
    {
        let b = name.as_bytes();
        let ed = ed25519_name_vec();
        let hm = hmac_name_vec();
        if bytes_eq(b, ed.as_slice()) {
            Ok(Algorithm::Ed25519)
        } else if bytes_eq(b, hm.as_slice()) {
            Ok(Algorithm::HmacSha256)
        } else {
            Err(AuthError::UnsupportedAlgorithm)
        }
    }

    /// The wire name of this algorithm.
    pub fn name(&self) -> (r: &'static str)
        ensures
            *self is Ed25519 ==> r@ == "ed25519"@,
            *self is HmacSha256 ==> r@ == "hmac-sha256"@,
    {
        match self {
            Algorithm::Ed25519 => "ed25519",
            Algorithm::HmacSha256 => "hmac-sha256",
        }
    }

    /// The wire name of this algorithm, as ASCII bytes.
    pub fn name_bytes(&self) -> (r: Vec<u8>)
        ensures
            r@ == algo_name_bytes(*self),
    {
        match self {
            Algorithm::Ed25519 => ed25519_name_vec(),
            Algorithm::HmacSha256 => hmac_name_vec(),
        }
    }
}

} // verus!
