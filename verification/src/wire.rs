//! The canonical wire form of envelopes and invites.
//!
//! An envelope travels as the JSON object
//! `{"algo":A,"pubk":P,"sig":S,"msg":M}` with the three binary fields
//! base64-encoded; an invite payload as
//! `{"command":"registration_invite","uuid":U}`. The library emits exactly
//! this canonical form (fixed field order, no whitespace) and accepts
//! exactly it back: parsing is specified as a total function on byte
//! strings, the serializer is proved to produce parseable output, and the
//! parser is proved to compute the specified function.

use vstd::prelude::*;

use crate::algorithm::{ed25519_name_bytes, hmac_name_bytes, Algorithm};
use crate::b64::{b64_decode_bytes, b64_encode_bytes, base64_decode_of, base64_of, is_base64_byte};
use crate::bytesutil::bytes_range;
use crate::signed_message::{EnvelopeModel, SignedMessage};

verus! {

/// The ASCII bytes of `{"algo":"`.
pub open spec fn header_bytes() -> Seq<u8> {
    seq![123u8, 34u8, 97u8, 108u8, 103u8, 111u8, 34u8, 58u8, 34u8]
}

/// The ASCII bytes of `","pubk":"`.
pub open spec fn sep_pubk_bytes() -> Seq<u8> {
    seq![34u8, 44u8, 34u8, 112u8, 117u8, 98u8, 107u8, 34u8, 58u8, 34u8]
}

/// The ASCII bytes of `","sig":"`.
pub open spec fn sep_sig_bytes() -> Seq<u8> {
    seq![34u8, 44u8, 34u8, 115u8, 105u8, 103u8, 34u8, 58u8, 34u8]
}

/// The ASCII bytes of `","msg":"`.
pub open spec fn sep_msg_bytes() -> Seq<u8> {
    seq![34u8, 44u8, 34u8, 109u8, 115u8, 103u8, 34u8, 58u8, 34u8]
}

/// The ASCII bytes of `"}`.
pub open spec fn tail_bytes() -> Seq<u8> {
    seq![34u8, 125u8]
}

/// The canonical envelope JSON with the given algorithm name and the three
/// already-encoded base64 chunks.
pub open spec fn envelope_wire(algo: Algorithm, c1: Seq<u8>, c2: Seq<u8>, c3: Seq<u8>) -> Seq<u8> {
    header_bytes() + crate::algorithm::algo_name_bytes(algo) + sep_pubk_bytes() + c1
        + sep_sig_bytes() + c2 + sep_msg_bytes() + c3 + tail_bytes()
}

/// The canonical JSON serialization of an envelope.
pub open spec fn envelope_json(m: EnvelopeModel) -> Seq<u8> {
    envelope_wire(m.algo, base64_of(m.pubk), base64_of(m.sig), base64_of(m.msg))
}

/// Whether every byte of a sequence is base64 text.
pub open spec fn is_b64_seq(s: Seq<u8>) -> bool {
    forall|i: int| 0 <= i < s.len() ==> is_base64_byte(#[trigger] s[i])
}

/// The position of the first `"` byte, if any.
pub open spec fn spec_find_quote(s: Seq<u8>) -> Option<int>
    decreases s.len(),
{
    if s.len() == 0 {
        None
    } else if s[0] == 34 {
        Some(0int)
    } else {
        match spec_find_quote(s.drop_first()) {
            Some(i) => Some(i + 1),
            None => None,
        }
    }
}

proof fn lemma_find_quote_at(s: Seq<u8>, k: int)
    requires
        0 <= k < s.len(),
        s[k] == 34,
        forall|j: int| 0 <= j < k ==> s[j] != 34,
    ensures
        spec_find_quote(s) == Some(k),
    decreases k,
{
    if k > 0 {
        lemma_find_quote_at(s.drop_first(), k - 1);
    }
}

proof fn lemma_find_quote_none(s: Seq<u8>)
    requires
        forall|j: int| 0 <= j < s.len() ==> s[j] != 34,
    ensures
        spec_find_quote(s) is None,
    decreases s.len(),
{
    if s.len() > 0 {
        lemma_find_quote_none(s.drop_first());
    }
}

/// What parsing the three base64 fields from position `p` yields.
pub open spec fn spec_parse_fields(jb: Seq<u8>, p: int, algo: Algorithm) -> Option<EnvelopeModel> {
    if p + 10 <= jb.len() && jb.subrange(p, p + 10) == sep_pubk_bytes() {
        match spec_find_quote(jb.skip(p + 10)) {
            None => None,
            Some(n1) => {
                let q1 = p + 10 + n1;
                let c1 = jb.subrange(p + 10, q1);
                if q1 + 9 <= jb.len() && jb.subrange(q1, q1 + 9) == sep_sig_bytes() {
                    match spec_find_quote(jb.skip(q1 + 9)) {
                        None => None,
                        Some(n2) => {
                            let q2 = q1 + 9 + n2;
                            let c2 = jb.subrange(q1 + 9, q2);
                            if q2 + 9 <= jb.len() && jb.subrange(q2, q2 + 9) == sep_msg_bytes() {
                                match spec_find_quote(jb.skip(q2 + 9)) {
                                    None => None,
                                    Some(n3) => {
                                        let q3 = q2 + 9 + n3;
                                        let c3 = jb.subrange(q2 + 9, q3);
                                        if q3 + 2 == jb.len() && jb.subrange(q3, q3 + 2)
                                            == tail_bytes() {
                                            match (
                                                base64_decode_of(c1),
                                                base64_decode_of(c2),
                                                base64_decode_of(c3),
                                            ) {
                                                (Some(pk), Some(sg), Some(ms)) => Some(
                                                    EnvelopeModel {
                                                        algo,
                                                        pubk: pk,
                                                        sig: sg,
                                                        msg: ms,
                                                    },
                                                ),
                                                _ => None,
                                            }
                                        } else {
                                            None
                                        }
                                    },
                                }
                            } else {
                                None
                            }
                        },
                    }
                } else {
                    None
                }
            },
        }
    } else {
        None
    }
}

/// What parsing an envelope from canonical JSON bytes yields.
pub open spec fn spec_parse_envelope(jb: Seq<u8>) -> Option<EnvelopeModel> {
    if jb.len() >= 16 && jb.subrange(0, 9) == header_bytes() && jb.subrange(9, 16)
        == ed25519_name_bytes() {
        spec_parse_fields(jb, 16, Algorithm::Ed25519)
    } else if jb.len() >= 20 && jb.subrange(0, 9) == header_bytes() && jb.subrange(9, 20)
        == hmac_name_bytes() {
        spec_parse_fields(jb, 20, Algorithm::HmacSha256)
    } else {
        None
    }
}

/// Serialize an envelope to its canonical JSON bytes. The extra clauses
/// re-export what the base64 engine guarantees of the three chunks, so that
/// callers can apply the parse round trip.
pub fn envelope_to_json(m: &SignedMessage) -> (r: Vec<u8>)
    ensures
        r@ == envelope_json(m@),
        is_b64_seq(base64_of(m@.pubk)) && base64_decode_of(base64_of(m@.pubk)) == Some(m@.pubk),
        is_b64_seq(base64_of(m@.sig)) && base64_decode_of(base64_of(m@.sig)) == Some(m@.sig),
        is_b64_seq(base64_of(m@.msg)) && base64_decode_of(base64_of(m@.msg)) == Some(m@.msg),
{
    let mut out: Vec<u8> = vec![123u8, 34u8, 97u8, 108u8, 103u8, 111u8, 34u8, 58u8, 34u8];
    proof {
        assert(out@ =~= header_bytes());
    }
    let name = m.algo.name_bytes();
    out.extend_from_slice(name.as_slice());
    let sep1: Vec<u8> = vec![34u8, 44u8, 34u8, 112u8, 117u8, 98u8, 107u8, 34u8, 58u8, 34u8];
    proof {
        assert(sep1@ =~= sep_pubk_bytes());
    }
    out.extend_from_slice(sep1.as_slice());
    let c1 = b64_encode_bytes(m.pubk.as_slice());
    out.extend_from_slice(c1.as_slice());
    let sep2: Vec<u8> = vec![34u8, 44u8, 34u8, 115u8, 105u8, 103u8, 34u8, 58u8, 34u8];
    proof {
        assert(sep2@ =~= sep_sig_bytes());
    }
    out.extend_from_slice(sep2.as_slice());
    let c2 = b64_encode_bytes(m.sig.as_slice());
    out.extend_from_slice(c2.as_slice());
    let sep3: Vec<u8> = vec![34u8, 44u8, 34u8, 109u8, 115u8, 103u8, 34u8, 58u8, 34u8];
    proof {
        assert(sep3@ =~= sep_msg_bytes());
    }
    out.extend_from_slice(sep3.as_slice());
    let c3 = b64_encode_bytes(m.msg.as_slice());
    out.extend_from_slice(c3.as_slice());
    let tail: Vec<u8> = vec![34u8, 125u8];
    proof {
        assert(tail@ =~= tail_bytes());
    }
    out.extend_from_slice(tail.as_slice());
    proof {
        assert(out@ =~= envelope_json(m@));
    }
    out
}

/// Does `jb[pos..]` start with `pat`?
fn match_at(jb: &[u8], pos: usize, pat: &[u8]) -> (r: bool)
    requires
        pos <= jb@.len(),
    ensures
        r <==> (pos + pat@.len() <= jb@.len() && jb@.subrange(
            pos as int,
            pos + pat@.len(),
        ) == pat@),
{
    let n = pat.len();
    let total = jb.len();
    if n > total - pos {
        return false;
    }
    let mut i: usize = 0;
    while i < n
        invariant
            total == jb@.len(),
            pos + n <= total,
            n == pat@.len(),
            0 <= i <= n,
            forall|j: int| 0 <= j < i ==> jb@[pos + j] == pat@[j],
        decreases n - i,
    {
        if jb[pos + i] != pat[i] {
            proof {
                assert(jb@.subrange(pos as int, pos + pat@.len())[i as int] == jb@[pos + i]);
            }
            return false;
        }
        i += 1;
    }
    proof {
        assert(jb@.subrange(pos as int, pos + pat@.len()) =~= pat@);
    }
    true
}

/// The position of the first `"` at or after `from`.
fn find_quote_from(jb: &[u8], from: usize) -> (r: Option<usize>)
    requires
        from <= jb@.len(),
    ensures
        match r {
            Some(i) => from <= i < jb@.len() && spec_find_quote(jb@.skip(from as int)) == Some(
                i - from,
            ),
            None => spec_find_quote(jb@.skip(from as int)) is None,
        },
{
    let n = jb.len();
    let mut i: usize = from;
    while i < n
        invariant
            from <= i <= n,
            n == jb@.len(),
            forall|j: int| from <= j < i ==> jb@[j] != 34,
        decreases n - i,
    {
        if jb[i] == 34 {
            proof {
                let s = jb@.skip(from as int);
                assert(s[i - from] == jb@[i as int]);
                assert forall|j: int| 0 <= j < i - from implies s[j] != 34 by {
                    assert(s[j] == jb@[from + j]);
                }
                lemma_find_quote_at(s, i - from);
            }
            return Some(i);
        }
        i += 1;
    }
    proof {
        let s = jb@.skip(from as int);
        assert forall|j: int| 0 <= j < s.len() implies s[j] != 34 by {
            assert(s[j] == jb@[from + j]);
        }
        lemma_find_quote_none(s);
    }
    None
}

/// Parse canonical envelope JSON bytes back into an envelope.
pub fn parse_envelope_json(jb: &[u8]) -> (r: Option<SignedMessage>)
    ensures
        match r {
            Some(m) => spec_parse_envelope(jb@) == Some(m@),
            None => spec_parse_envelope(jb@) is None,
        },
{
    let hdr: Vec<u8> = vec![123u8, 34u8, 97u8, 108u8, 103u8, 111u8, 34u8, 58u8, 34u8];
    proof {
        assert(hdr@ =~= header_bytes());
    }
    if !match_at(jb, 0, hdr.as_slice()) {
        return None;
    }
    let ed = crate::algorithm::ed25519_name_vec();
    let hm = crate::algorithm::hmac_name_vec();
    let algo: Algorithm;
    let p: usize;
    if match_at(jb, 9, ed.as_slice()) {
        algo = Algorithm::Ed25519;
        p = 16;
    } else if match_at(jb, 9, hm.as_slice()) {
        algo = Algorithm::HmacSha256;
        p = 20;
    } else {
        return None;
    }
    parse_fields(jb, p, algo)
}

/// Parse the three base64 fields from position `p`.
fn parse_fields(jb: &[u8], p: usize, algo: Algorithm) -> (r: Option<SignedMessage>)
    requires
        p <= jb@.len(),
    ensures
        match r {
            Some(m) => spec_parse_fields(jb@, p as int, algo) == Some(m@) && m@.algo == algo,
            None => spec_parse_fields(jb@, p as int, algo) is None,
        },
{
    let total = jb.len();
    let sep1: Vec<u8> = vec![34u8, 44u8, 34u8, 112u8, 117u8, 98u8, 107u8, 34u8, 58u8, 34u8];
    let sep2: Vec<u8> = vec![34u8, 44u8, 34u8, 115u8, 105u8, 103u8, 34u8, 58u8, 34u8];
    let sep3: Vec<u8> = vec![34u8, 44u8, 34u8, 109u8, 115u8, 103u8, 34u8, 58u8, 34u8];
    let tail: Vec<u8> = vec![34u8, 125u8];
    proof {
        assert(sep1@ =~= sep_pubk_bytes());
        assert(sep2@ =~= sep_sig_bytes());
        assert(sep3@ =~= sep_msg_bytes());
        assert(tail@ =~= tail_bytes());
    }
    if !match_at(jb, p, sep1.as_slice()) {
        return None;
    }
    let q1 = match find_quote_from(jb, p + 10) {
        Some(q) => q,
        None => {
            return None;
        },
    };
    let c1 = bytes_range(jb, p + 10, q1);
    if !match_at(jb, q1, sep2.as_slice()) {
        return None;
    }
    let q2 = match find_quote_from(jb, q1 + 9) {
        Some(q) => q,
        None => {
            return None;
        },
    };
    let c2 = bytes_range(jb, q1 + 9, q2);
    if !match_at(jb, q2, sep3.as_slice()) {
        return None;
    }
    let q3 = match find_quote_from(jb, q2 + 9) {
        Some(q) => q,
        None => {
            return None;
        },
    };
    let c3 = bytes_range(jb, q2 + 9, q3);
    if !(match_at(jb, q3, tail.as_slice()) && q3 + 2 == jb.len()) {
        return None;
    }
    let pubk = match b64_decode_bytes(c1.as_slice()) {
        Some(v) => v,
        None => {
            return None;
        },
    };
    let sig = match b64_decode_bytes(c2.as_slice()) {
        Some(v) => v,
        None => {
            return None;
        },
    };
    let msg = match b64_decode_bytes(c3.as_slice()) {
        Some(v) => v,
        None => {
            return None;
        },
    };
    Some(SignedMessage { algo, pubk, sig, msg })
}

/// The ASCII bytes of `{"command":"registration_invite","uuid":"`.
pub open spec fn invite_prefix_bytes() -> Seq<u8> {
    seq![
        123u8, 34u8, 99u8, 111u8, 109u8, 109u8, 97u8, 110u8, 100u8, 34u8, 58u8, 34u8, 114u8,
        101u8, 103u8, 105u8, 115u8, 116u8, 114u8, 97u8, 116u8, 105u8, 111u8, 110u8, 95u8, 105u8,
        110u8, 118u8, 105u8, 116u8, 101u8, 34u8, 44u8, 34u8, 117u8, 117u8, 105u8, 100u8, 34u8,
        58u8, 34u8,
    ]
}

/// The canonical invite payload JSON around a 36-byte UUID.
pub open spec fn invite_wire(uuid: Seq<u8>) -> Seq<u8> {
    invite_prefix_bytes() + uuid + tail_bytes()
}

/// What parsing an invite payload yields: the 36 UUID bytes of a canonical
/// invite payload, and nothing else.
pub open spec fn spec_parse_invite(b: Seq<u8>) -> Option<Seq<u8>> {
    if b.len() == 79 && b.subrange(0, 41) == invite_prefix_bytes() && b.subrange(77, 79)
        == tail_bytes() {
        Some(b.subrange(41, 77))
    } else {
        None
    }
}

/// The ASCII bytes of the invite payload prefix, as a vector.
fn invite_prefix_vec() -> (r: Vec<u8>)
    ensures
        r@ == invite_prefix_bytes(),
{
    let r: Vec<u8> = vec![
        123u8, 34u8, 99u8, 111u8, 109u8, 109u8, 97u8, 110u8, 100u8, 34u8, 58u8, 34u8, 114u8,
        101u8, 103u8, 105u8, 115u8, 116u8, 114u8, 97u8, 116u8, 105u8, 111u8, 110u8, 95u8, 105u8,
        110u8, 118u8, 105u8, 116u8, 101u8, 34u8, 44u8, 34u8, 117u8, 117u8, 105u8, 100u8, 34u8,
        58u8, 34u8,
    ];
    proof {
        assert(r@ =~= invite_prefix_bytes());
    }
    r
}

/// Serialize an invite payload around its 36-byte UUID.
pub fn invite_to_json(uuid: &[u8]) -> (r: Vec<u8>)
    requires
        uuid@.len() == 36,
    ensures
        r@ == invite_wire(uuid@),
{
    let mut out = invite_prefix_vec();
    out.extend_from_slice(uuid);
    let tail: Vec<u8> = vec![34u8, 125u8];
    proof {
        assert(tail@ =~= tail_bytes());
    }
    out.extend_from_slice(tail.as_slice());
    proof {
        assert(out@ =~= invite_wire(uuid@));
    }
    out
}

/// Parse a canonical invite payload back into its UUID bytes.
pub fn parse_invite_json(b: &[u8]) -> (r: Option<Vec<u8>>)
    ensures
        match r {
            Some(u) => spec_parse_invite(b@) == Some(u@),
            None => spec_parse_invite(b@) is None,
        },
{
    if b.len() != 79 {
        return None;
    }
    let prefix = invite_prefix_vec();
    if !match_at(b, 0, prefix.as_slice()) {
        return None;
    }
    let tail: Vec<u8> = vec![34u8, 125u8];
    proof {
        assert(tail@ =~= tail_bytes());
    }
    if !match_at(b, 77, tail.as_slice()) {
        return None;
    }
    Some(bytes_range(b, 41, 77))
}

/// Round trip of the invite payload wire form.
pub proof fn lemma_parse_invite_wire(uuid: Seq<u8>)
    requires
        uuid.len() == 36,
    ensures
        spec_parse_invite(invite_wire(uuid)) == Some(uuid),
{
    let b = invite_wire(uuid);
    assert(b.subrange(0, 41) =~= invite_prefix_bytes());
    assert(b.subrange(77, 79) =~= tail_bytes());
    assert(b.subrange(41, 77) =~= uuid);
}

/// Round trip of the envelope wire form: the canonical JSON built from an
/// algorithm and three base64 chunks parses back to the envelope those
/// chunks decode to. The hypotheses about the chunks are exactly what the
/// serializer ensures.
pub proof fn lemma_parse_envelope_wire(m: EnvelopeModel, c1: Seq<u8>, c2: Seq<u8>, c3: Seq<u8>)
    requires
        is_b64_seq(c1),
        is_b64_seq(c2),
        is_b64_seq(c3),
        base64_decode_of(c1) == Some(m.pubk),
        base64_decode_of(c2) == Some(m.sig),
        base64_decode_of(c3) == Some(m.msg),
    ensures
        spec_parse_envelope(envelope_wire(m.algo, c1, c2, c3)) == Some(m),
{
    let jb = envelope_wire(m.algo, c1, c2, c3);
    let name = crate::algorithm::algo_name_bytes(m.algo);
    let p = 9 + name.len() as int;
    assert(jb.subrange(0, 9) =~= header_bytes());
    assert(jb.subrange(9, p) =~= name);
    match m.algo {
        Algorithm::Ed25519 => {
            assert(jb.subrange(9, 16) =~= ed25519_name_bytes());
        },
        Algorithm::HmacSha256 => {
            assert(jb.subrange(9, 20) =~= hmac_name_bytes());
            // the ed25519 branch of the parse does not fire: first name byte differs
            if jb.len() >= 16 && jb.subrange(9, 16) == ed25519_name_bytes() {
                assert(jb.subrange(9, 16)[0] == jb[9]);
                assert(jb.subrange(9, 20)[0] == jb[9]);
                assert(false);
            }
        },
    }
    lemma_parse_fields_wire(jb, p, m, c1, c2, c3);
}

proof fn lemma_parse_fields_wire(
    jb: Seq<u8>,
    p: int,
    m: EnvelopeModel,
    c1: Seq<u8>,
    c2: Seq<u8>,
    c3: Seq<u8>,
)
    requires
        is_b64_seq(c1),
        is_b64_seq(c2),
        is_b64_seq(c3),
        base64_decode_of(c1) == Some(m.pubk),
        base64_decode_of(c2) == Some(m.sig),
        base64_decode_of(c3) == Some(m.msg),
        p == 9 + crate::algorithm::algo_name_bytes(m.algo).len(),
        jb == envelope_wire(m.algo, c1, c2, c3),
    ensures
        spec_parse_fields(jb, p, m.algo) == Some(m),
{
    let q1 = p + 10 + c1.len();
    let q2 = q1 + 9 + c2.len();
    let q3 = q2 + 9 + c3.len();
    assert(jb.len() == q3 + 2);
    assert(jb.subrange(p, p + 10) =~= sep_pubk_bytes());
    assert(jb.subrange(p + 10, q1) =~= c1);
    assert(jb.subrange(q1, q1 + 9) =~= sep_sig_bytes());
    assert(jb.subrange(q1 + 9, q2) =~= c2);
    assert(jb.subrange(q2, q2 + 9) =~= sep_msg_bytes());
    assert(jb.subrange(q2 + 9, q3) =~= c3);
    assert(jb.subrange(q3, q3 + 2) =~= tail_bytes());
    let s1 = jb.skip(p + 10);
    assert(s1[c1.len() as int] == jb[q1]);
    assert(jb[q1] == 34);
    assert forall|j: int| 0 <= j < c1.len() implies s1[j] != 34 by {
        assert(s1[j] == jb[p + 10 + j]);
        assert(jb[p + 10 + j] == c1[j]);
        assert(is_base64_byte(c1[j]));
    }
    lemma_find_quote_at(s1, c1.len() as int);
    let s2 = jb.skip(q1 + 9);
    assert(s2[c2.len() as int] == jb[q2]);
    assert(jb[q2] == 34);
    assert forall|j: int| 0 <= j < c2.len() implies s2[j] != 34 by {
        assert(s2[j] == jb[q1 + 9 + j]);
        assert(jb[q1 + 9 + j] == c2[j]);
        assert(is_base64_byte(c2[j]));
    }
    lemma_find_quote_at(s2, c2.len() as int);
    let s3 = jb.skip(q2 + 9);
    assert(s3[c3.len() as int] == jb[q3]);
    assert(jb[q3] == 34);
    assert forall|j: int| 0 <= j < c3.len() implies s3[j] != 34 by {
        assert(s3[j] == jb[q2 + 9 + j]);
        assert(jb[q2 + 9 + j] == c3[j]);
        assert(is_base64_byte(c3[j]));
    }
    lemma_find_quote_at(s3, c3.len() as int);
}

} // verus!
