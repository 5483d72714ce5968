//! HMAC-SHA256, provided by the `hmac` and `sha2` crates behind trusted
//! wrappers.
//!
//! The tag itself is not modelled: `hmac_sha256_of` names the function the
//! crates compute. Everything the rest of the library proves speaks of the
//! tag through this name.

use vstd::prelude::*;
use hmac::{KeyInit, Mac};

verus! {

/// The HMAC-SHA256 tag of `msg` under `key`. A pure function of its
/// arguments; HMAC accepts keys of any length.
pub uninterp spec fn hmac_sha256_of(key: Seq<u8>, msg: Seq<u8>) -> Seq<u8>;

/// Relies on `Hmac::<Sha256>::new_from_slice` (total for HMAC keys of any
/// length), `Mac::update` and `Mac::finalize`: the 32-byte HMAC-SHA256 tag
/// of the message under the key, a function of the two arguments alone.
#[verifier::external_body]
pub(crate) fn hmac_sha256(key: &[u8], msg: &[u8]) -> (r: Vec<u8>)
    ensures
        r@ == hmac_sha256_of(key@, msg@),
        r@.len() == 32,
{
    let mut mac = hmac::Hmac::<sha2::Sha256>::new_from_slice(key).unwrap();
    mac.update(msg);
    mac.finalize().into_bytes().to_vec()
}

/// Relies on `Mac::verify_slice`, which recomputes the tag and compares in
/// constant time: it accepts exactly the HMAC-SHA256 tag of the message.
#[verifier::external_body]
pub(crate) fn hmac_sha256_verify(key: &[u8], msg: &[u8], tag: &[u8]) -> (r: bool)
    ensures
        r <==> tag@ == hmac_sha256_of(key@, msg@),
{
    let mut mac = hmac::Hmac::<sha2::Sha256>::new_from_slice(key).unwrap();
    mac.update(msg);
    mac.verify_slice(tag).is_ok()
}

} // verus!
