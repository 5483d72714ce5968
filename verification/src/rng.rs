//! Fresh key material, provided by the `rand` crate behind a trusted
//! wrapper. Nothing can be promised of a random value beyond its size.

use vstd::prelude::*;

verus! {

/// Relies on `rand::random::<[u8; 32]>`: 32 bytes from the thread-local
/// cryptographically secure generator. Only the length is promised.
#[verifier::external_body]
pub(crate) fn random_bytes_32() -> (r: Vec<u8>)
    ensures
        r@.len() == 32,
{
    let buf: [u8; 32] = rand::random();
    buf.to_vec()
}

} // verus!
