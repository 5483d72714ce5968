//! Format validators for identifiers that cross the API boundary.
//!
//! The invite identifier must be a lowercase, hyphenated version-4 UUID;
//! page names and channel handles are DNS-like tokens; language codes are
//! two or three lowercase letters with an optional uppercase region.

use vstd::prelude::*;
use vstd::string::StringSliceAdditionalSpecFns;

use crate::errors::AuthError;

verus! {

/// A lowercase hex digit byte.
pub open spec fn is_lower_hex_byte(c: u8) -> bool {
    (48 <= c <= 57) || (97 <= c <= 102)
}

/// A lowercase, hyphenated version-4 UUID in its canonical 36-byte form:
/// hyphens at positions 8, 13, 18 and 23, lowercase hex elsewhere, the
/// version nibble `4`, and a variant nibble in `8`, `9`, `a` or `b`.
pub open spec fn spec_valid_v4_uuid_bytes(s: Seq<u8>) -> bool {
    &&& s.len() == 36
    &&& forall|i: int|
        0 <= i < 36 ==> (if i == 8 || i == 13 || i == 18 || i == 23 {
            s[i] == 45
        } else {
            is_lower_hex_byte(#[trigger] s[i])
        })
    &&& s[14] == 52
    &&& (s[19] == 56 || s[19] == 57 || s[19] == 97 || s[19] == 98)
}

/// Every byte of a valid UUID is ASCII.
pub proof fn lemma_uuid_bytes_ascii(s: Seq<u8>)
    requires
        spec_valid_v4_uuid_bytes(s),
    ensures
        forall|i: int| 0 <= i < s.len() ==> s[i] < 128,
{
    assert forall|i: int| 0 <= i < s.len() implies s[i] < 128 by {
        if i == 8 || i == 13 || i == 18 || i == 23 {
        } else {
            assert(is_lower_hex_byte(s[i]));
        }
    }
}

/// Check the canonical lowercase version-4 form on raw bytes.
pub(crate) fn valid_v4_uuid_bytes(s: &[u8]) -> (r: bool)
    ensures
        r <==> spec_valid_v4_uuid_bytes(s@),
{
    if s.len() != 36 {
        return false;
    }
    let mut i: usize = 0;
    while i < 36
        invariant
            s@.len() == 36,
            0 <= i <= 36,
            forall|j: int|
                0 <= j < i ==> (if j == 8 || j == 13 || j == 18 || j == 23 {
                    s@[j] == 45
                } else {
                    is_lower_hex_byte(#[trigger] s@[j])
                }),
        decreases 36 - i,
    {
        let c = s[i];
        if i == 8 || i == 13 || i == 18 || i == 23 {
            if c != 45 {
                return false;
            }
        } else {
            if !((48 <= c && c <= 57) || (97 <= c && c <= 102)) {
                return false;
            }
        }
        i += 1;
    }
    if s[14] != 52 {
        return false;
    }
    let v = s[19];
    if !(v == 56 || v == 57 || v == 97 || v == 98) {
        return false;
    }
    true
}

/// UUIDs are expected to be in lowercase; only canonical version-4 values
/// are accepted.
pub fn validate_v4_uuid(uuid: &str) -> (r: Result<(), AuthError>)
    ensures
        r is Ok <==> spec_valid_v4_uuid_bytes(uuid.spec_bytes()),
        r is Err ==> r == Err::<(), AuthError>(AuthError::InvalidInvite),
{
    if valid_v4_uuid_bytes(uuid.as_bytes()) {
        Ok(())
    } else {
        Err(AuthError::InvalidInvite)
    }
}

/// A lowercase alphanumeric byte.
pub open spec fn is_lower_alnum_byte(c: u8) -> bool {
    (48 <= c <= 57) || (97 <= c <= 122)
}

/// A DNS-like token: nonempty groups of lowercase alphanumerics separated
/// by single hyphens, with no leading or trailing hyphen.
pub open spec fn spec_dns_token(s: Seq<u8>) -> bool {
    &&& s.len() >= 1
    &&& forall|i: int| 0 <= i < s.len() ==> (is_lower_alnum_byte(#[trigger] s[i]) || s[i] == 45)
    &&& s[0] != 45
    &&& s[s.len() - 1] != 45
    &&& forall|i: int| 0 <= i < s.len() - 1 ==> !(s[i] == 45 && #[trigger] s[i + 1] == 45)
}

/// Check the DNS-like token shape on raw bytes.
pub(crate) fn dns_token_bytes(s: &[u8]) -> (r: bool)
    ensures
        r <==> spec_dns_token(s@),
{
    let n = s.len();
    if n == 0 {
        return false;
    }
    if s[0] == 45 || s[n - 1] == 45 {
        return false;
    }
    let mut i: usize = 0;
    while i < n
        invariant
            n == s@.len(),
            0 <= i <= n,
            forall|j: int| 0 <= j < i ==> (is_lower_alnum_byte(#[trigger] s@[j]) || s@[j] == 45),
            forall|j: int| 0 <= j < i - 1 ==> !(s@[j] == 45 && #[trigger] s@[j + 1] == 45),
        decreases n - i,
    {
        let c = s[i];
        if !((48 <= c && c <= 57) || (97 <= c && c <= 122) || c == 45) {
            proof {
                assert(!(is_lower_alnum_byte(s@[i as int]) || s@[i as int] == 45));
            }
            return false;
        }
        if i > 0 && c == 45 && s[i - 1] == 45 {
            proof {
                assert(s@[i - 1] == 45 && s@[i - 1 + 1] == 45);
            }
            return false;
        }
        i += 1;
    }
    true
}

/// Whether a page name is a DNS-like token of at most 64 bytes.
pub fn is_valid_dns_token(token: &str) -> (r: bool)
    ensures
        r <==> (token.spec_bytes().len() <= 64 && spec_dns_token(token.spec_bytes())),
{
    let b = token.as_bytes();
    b.len() <= 64 && dns_token_bytes(b)
}

/// A channel handle: the same DNS-like token shape, at most 64 bytes.
pub fn validate_channel_handle(handle: &str) -> (r: Result<(), AuthError>)
    ensures
        r is Ok <==> (handle.spec_bytes().len() <= 64 && spec_dns_token(handle.spec_bytes())),
        r is Err ==> r == Err::<(), AuthError>(AuthError::InvalidEncoding),
{
    let b = handle.as_bytes();
    if b.len() <= 64 && dns_token_bytes(b) {
        Ok(())
    } else {
        Err(AuthError::InvalidEncoding)
    }
}

/// A lowercase letter byte.
pub open spec fn is_lower_alpha_byte(c: u8) -> bool {
    97 <= c <= 122
}

/// An uppercase letter byte.
pub open spec fn is_upper_alpha_byte(c: u8) -> bool {
    65 <= c <= 90
}

/// A language code: two or three lowercase letters, optionally followed by
/// a hyphen and a two-letter uppercase region.
pub open spec fn spec_language_code(s: Seq<u8>) -> bool {
    ||| (s.len() == 2 && is_lower_alpha_byte(s[0]) && is_lower_alpha_byte(s[1]))
    ||| (s.len() == 3 && is_lower_alpha_byte(s[0]) && is_lower_alpha_byte(s[1])
        && is_lower_alpha_byte(s[2]))
    ||| (s.len() == 5 && is_lower_alpha_byte(s[0]) && is_lower_alpha_byte(s[1]) && s[2] == 45
        && is_upper_alpha_byte(s[3]) && is_upper_alpha_byte(s[4]))
    ||| (s.len() == 6 && is_lower_alpha_byte(s[0]) && is_lower_alpha_byte(s[1])
        && is_lower_alpha_byte(s[2]) && s[3] == 45 && is_upper_alpha_byte(s[4])
        && is_upper_alpha_byte(s[5]))
}

fn lower_alpha(c: u8) -> (r: bool)
    ensures
        r == is_lower_alpha_byte(c),
{
    97 <= c && c <= 122
}

fn upper_alpha(c: u8) -> (r: bool)
    ensures
        r == is_upper_alpha_byte(c),
{
    65 <= c && c <= 90
}

/// Validate a language code.
pub fn validate_language_code(lang: &str) -> (r: Result<(), AuthError>)
    ensures
        r is Ok <==> spec_language_code(lang.spec_bytes()),
        r is Err ==> r == Err::<(), AuthError>(AuthError::InvalidEncoding),
{
    let b = lang.as_bytes();
    let ok: bool = if b.len() == 2 {
        lower_alpha(b[0]) && lower_alpha(b[1])
    } else if b.len() == 3 {
        lower_alpha(b[0]) && lower_alpha(b[1]) && lower_alpha(b[2])
    } else if b.len() == 5 {
        lower_alpha(b[0]) && lower_alpha(b[1]) && b[2] == 45 && upper_alpha(b[3]) && upper_alpha(
            b[4],
        )
    } else if b.len() == 6 {
        lower_alpha(b[0]) && lower_alpha(b[1]) && lower_alpha(b[2]) && b[3] == 45 && upper_alpha(
            b[4],
        ) && upper_alpha(b[5])
    } else {
        false
    };
    if ok {
        Ok(())
    } else {
        Err(AuthError::InvalidEncoding)
    }
}

} // verus!
