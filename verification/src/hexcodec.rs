//! Verified hexadecimal encoding and decoding of byte strings.
//!
//! Derived secrets travel out of band as lowercase hex; inbound gate tokens
//! are decoded from hex before the constant-time comparison. Encoding always
//! produces lowercase digits; decoding accepts both cases, mirroring the
//! usual tolerant hex readers.

use vstd::prelude::*;

verus! {

/// The lowercase hex digit (as an ASCII byte) for a value below 16.
pub open spec fn spec_hex_digit(n: u8) -> u8
    recommends
        n < 16,
{
    if n < 10 {
        (48 + n) as u8
    } else {
        (87 + n) as u8
    }
}

/// The lowercase hex encoding (as ASCII bytes) of a byte string.
pub open spec fn spec_hex_of(b: Seq<u8>) -> Seq<u8>
    decreases b.len(),
{
    if b.len() == 0 {
        Seq::empty()
    } else {
        seq![spec_hex_digit(b.first() / 16), spec_hex_digit(b.first() % 16)]
            + spec_hex_of(b.drop_first())
    }
}

/// The value of one hex digit byte, upper or lower case; `None` otherwise.
pub open spec fn spec_hex_val(c: u8) -> Option<u8> {
    if 48 <= c <= 57 {
        Some((c - 48) as u8)
    } else if 97 <= c <= 102 {
        Some((c - 87) as u8)
    } else if 65 <= c <= 70 {
        Some((c - 55) as u8)
    } else {
        None
    }
}

/// The bytes encoded by a hex string, or `None` if the string has odd
/// length or holds a non-digit.
pub open spec fn spec_hex_decode(s: Seq<u8>) -> Option<Seq<u8>>
    decreases s.len(),
{
    if s.len() == 0 {
        Some(Seq::empty())
    } else if s.len() == 1 {
        None
    } else {
        match (spec_hex_val(s[0]), spec_hex_val(s[1])) {
            (Some(hi), Some(lo)) => match spec_hex_decode(s.skip(2)) {
                Some(rest) => Some(seq![(16 * hi + lo) as u8] + rest),
                None => None,
            },
            _ => None,
        }
    }
}

pub proof fn lemma_hex_of_len(b: Seq<u8>)
    ensures
        spec_hex_of(b).len() == 2 * b.len(),
    decreases b.len(),
{
    if b.len() > 0 {
        lemma_hex_of_len(b.drop_first());
    }
}

/// Lowercase hex encoding of a byte string.
pub fn hex_encode(data: &[u8]) -> (r: Vec<u8>)
    ensures
        r@ == spec_hex_of(data@),
{
    let n = data.len();
    let mut r: Vec<u8> = Vec::new();
    proof {
        assert(data@.skip(0) == data@);
    }
    let mut i: usize = 0;
    while i < n
        invariant
            n == data@.len(),
            0 <= i <= n,
            spec_hex_of(data@) =~= r@ + spec_hex_of(data@.skip(i as int)),
            r@.len() == 2 * i,
        decreases n - i,
    {
        let b = data[i];
        let hi = b / 16;
        let lo = b % 16;
        r.push(if hi < 10 { hi + 48 } else { hi + 87 });
        r.push(if lo < 10 { lo + 48 } else { lo + 87 });
        proof {
            let rest = data@.skip(i as int);
            assert(rest.first() == data@[i as int]);
            assert(rest.drop_first() =~= data@.skip(i + 1 as int));
            lemma_hex_of_len(data@.skip(i + 1 as int));
        }
        i += 1;
    }
    proof {
        assert(data@.skip(n as int) =~= Seq::<u8>::empty());
    }
    r
}

/// The value of one hex digit byte, or `None`.
fn hex_val(c: u8) -> (r: Option<u8>)
    ensures
        r == spec_hex_val(c),
{
    if 48 <= c && c <= 57 {
        Some(c - 48)
    } else if 97 <= c && c <= 102 {
        Some(c - 87)
    } else if 65 <= c && c <= 70 {
        Some(c - 55)
    } else {
        None
    }
}

/// Decode a hex string into bytes; `None` on odd length or a bad digit.
pub fn hex_decode(data: &[u8]) -> (r: Option<Vec<u8>>)
    ensures
        match r {
            Some(v) => spec_hex_decode(data@) == Some(v@),
            None => spec_hex_decode(data@) is None,
        },
{
    let n = data.len();
    if n % 2 != 0 {
        proof {
            lemma_hex_decode_odd(data@);
        }
        return None;
    }
    let mut acc: Vec<u8> = Vec::new();
    proof {
        assert(data@.skip(0) == data@);
    }
    let mut i: usize = 0;
    while i < n
        invariant
            n == data@.len(),
            n % 2 == 0,
            0 <= i <= n,
            i % 2 == 0,
            match spec_hex_decode(data@.skip(i as int)) {
                Some(rest) => spec_hex_decode(data@) == Some(acc@ + rest),
                None => spec_hex_decode(data@) is None,
            },
        decreases n - i,
    {
        let ghost pre = data@.skip(i as int);
        let hi = match hex_val(data[i]) {
            Some(v) => v,
            None => {
                return None;
            },
        };
        let lo = match hex_val(data[i + 1]) {
            Some(v) => v,
            None => {
                return None;
            },
        };
        proof {
            assert(pre[0] == data@[i as int]);
            assert(pre[1] == data@[i + 1]);
            assert(pre.skip(2) =~= data@.skip(i + 2));
        }
        acc.push(16 * hi + lo);
        proof {
            if spec_hex_decode(data@.skip(i + 2)) is Some {
                let rest2 = spec_hex_decode(data@.skip(i + 2)).unwrap();
                assert(spec_hex_decode(pre) == Some(seq![(16 * hi + lo) as u8] + rest2));
                assert(acc@.drop_last() + (seq![(16 * hi + lo) as u8] + rest2) =~= acc@ + rest2);
            }
        }
        i += 2;
    }
    proof {
        assert(data@.skip(n as int) =~= Seq::<u8>::empty());
        assert(acc@ + Seq::<u8>::empty() =~= acc@);
    }
    Some(acc)
}

proof fn lemma_hex_decode_odd(s: Seq<u8>)
    requires
        s.len() % 2 == 1,
    ensures
        spec_hex_decode(s) is None,
    decreases s.len(),
{
    if s.len() > 1 {
        lemma_hex_decode_odd(s.skip(2));
    }
}

} // verus!
