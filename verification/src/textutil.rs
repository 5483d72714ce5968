//! Conversion between ASCII byte strings and `String`.
//!
//! The wire formats of this crate are byte-oriented; identifiers and tokens
//! cross into `String` only when every byte is ASCII.

use vstd::prelude::*;
use vstd::utf8::encode_utf8;

verus! {

/// Relies on `String::from_utf8`: for ASCII input it returns the string
/// whose UTF-8 encoding is exactly the input bytes, one character per byte.
#[verifier::external_body]
pub(crate) fn ascii_to_string(b: &Vec<u8>) -> (r: String)
    requires
        forall|i: int| 0 <= i < b@.len() ==> b@[i] < 128,
    ensures
        r@.len() == b@.len(),
        encode_utf8(r@) == b@,
        forall|i: int| 0 <= i < b@.len() ==> #[trigger] r@[i] == b@[i] as char,
{
    match String::from_utf8(b.clone()) {
        Ok(s) => s,
        Err(_) => String::new(),
    }
}

} // verus!
