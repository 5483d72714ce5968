//! Constant-time byte comparison, provided by the `subtle` crate behind a
//! trusted wrapper. Every comparison against secret material goes through
//! here, never through ordinary equality.

use vstd::prelude::*;
use subtle::ConstantTimeEq;

verus! {

/// Relies on `subtle::ConstantTimeEq::ct_eq` on byte slices: equality of
/// the two slices, computed without data-dependent timing (slices of
/// different lengths compare unequal).
#[verifier::external_body]
pub(crate) fn ct_bytes_eq(a: &[u8], b: &[u8]) -> (r: bool)
    ensures
        r <==> a@ == b@,
{
    a.ct_eq(b).into()
}

} // verus!
