//! Base64 transport encoding, provided by the `base64` crate behind
//! trusted wrappers.
//!
//! The standard alphabet with canonical padding is used, so decoding is the
//! exact partial inverse of encoding: it succeeds precisely on canonical
//! encodings and returns the encoded bytes.

use vstd::prelude::*;
use base64::Engine;
use vstd::string::StringSliceAdditionalSpecFns;

use crate::errors::AuthError;

verus! {

/// The standard base64 encoding (with padding) of a byte string, as the
/// ASCII bytes of the encoded text.
pub uninterp spec fn base64_of(b: Seq<u8>) -> Seq<u8>;

/// The byte string encoded by a base64 text, or `None` if the text is not a
/// canonical standard-alphabet encoding (with padding) of any byte string.
pub uninterp spec fn base64_decode_of(s: Seq<u8>) -> Option<Seq<u8>>;

/// Whether a byte is in the standard base64 alphabet or is the padding byte.
pub open spec fn is_base64_byte(c: u8) -> bool {
    (65 <= c <= 90)  // A-Z
    || (97 <= c <= 122)  // a-z
    || (48 <= c <= 57)  // 0-9
    || c == 43  // +
    || c == 47  // /
    || c == 61  // =
}

/// Relies on `base64::engine::general_purpose::STANDARD.encode`: the output
/// is over the standard alphabet plus padding, and (the engine being
/// canonical, with padding required) decoding it returns the input.
#[verifier::external_body]
pub(crate) fn b64_encode_bytes(data: &[u8]) -> (r: Vec<u8>)
    ensures
        r@ == base64_of(data@),
        forall|i: int| 0 <= i < r@.len() ==> is_base64_byte(#[trigger] r@[i]),
        base64_decode_of(r@) == Some(data@),
{
    base64::engine::general_purpose::STANDARD.encode(data).into_bytes()
}

/// Relies on `base64::engine::general_purpose::STANDARD.decode`: with
/// canonical padding required and trailing bits rejected, it accepts exactly
/// the canonical encodings, and on those returns the encoded bytes.
#[verifier::external_body]
pub(crate) fn b64_decode_bytes(data: &[u8]) -> (r: Option<Vec<u8>>)
    ensures
        r is Some <==> base64_decode_of(data@) is Some,
        r matches Some(v) ==> base64_decode_of(data@) == Some(v@) && base64_of(v@) == data@,
{
    base64::engine::general_purpose::STANDARD.decode(data).ok()
}

/// Base64 encoding of a byte string, as text.
pub fn encode(data: &[u8]) -> (r: String)
    ensures
        r@.len() == base64_of(data@).len(),
        vstd::utf8::encode_utf8(r@) == base64_of(data@),
        base64_decode_of(base64_of(data@)) == Some(data@),
{
    let bytes = b64_encode_bytes(data);
    proof {
        assert forall|i: int| 0 <= i < bytes@.len() implies bytes@[i] < 128 by {
            assert(is_base64_byte(bytes@[i]));
        }
    }
    crate::textutil::ascii_to_string(&bytes)
}

/// Base64 decoding of a text; fails on anything but a canonical encoding.
pub fn decode(data: &str) -> (r: Result<Vec<u8>, AuthError>)
    ensures
        match r {
            Ok(v) => base64_decode_of(data.spec_bytes()) == Some(v@) && base64_of(v@)
                == data.spec_bytes(),
            Err(e) => base64_decode_of(data.spec_bytes()) is None && e == AuthError::InvalidEncoding,
        },
{
    match b64_decode_bytes(data.as_bytes()) {
        Some(v) => Ok(v),
        None => Err(AuthError::InvalidEncoding),
    }
}

} // verus!
