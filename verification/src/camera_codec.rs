//! The textual encoding of the camera pose.
//!
//! The pose — center, frame and log-radius — is written as a JSON record
//! `{"center":[x,y,z],"cam_axis":[m0,...,m8],"radius":r}` with the frame in
//! column-major order.  Window size and scene framing are session values
//! and are not persisted.
//!
//! Each number is written by `serde_json` (shortest round-trip form) and
//! read back by it, so decoding an encoding of a finite pose restores the
//! exact bit patterns.  The decoder accepts exactly the grammar the encoder
//! emits, with arbitrary JSON number tokens, and leaves the camera data
//! untouched when the string is malformed.

use vstd::prelude::*;

use crate::camera_data::CameraData;
use crate::fbits::is_finite32;
use crate::linalg::{Mat3, Vec3};
use crate::ViewerError;

verus! {

// ---------------------------------------------------------------------------
// Number tokens.
// ---------------------------------------------------------------------------

/// A character that can occur in a JSON number token.
pub open spec fn is_json_num_char(c: char) -> bool {
    ||| ('0' <= c && c <= '9')
    ||| c == '-'
    ||| c == '+'
    ||| c == '.'
    ||| c == 'e'
    ||| c == 'E'
}

/// A non-empty run of number characters.
pub open spec fn num_seg(t: Seq<char>) -> bool {
    t.len() > 0 && (forall|i: int| 0 <= i < t.len() ==> is_json_num_char(#[trigger] t[i]))
}

/// The name of the number token `serde_json` writes for the value with
/// bits `b`.
pub uninterp spec fn jsonf_chars(b: u32) -> Seq<char>;

/// The name of the value `serde_json` reads back from a token.
pub uninterp spec fn parsef_bits(s: Seq<char>) -> Option<u32>;

/// Relies on `serde_json::to_string` for `f32`: a finite value is written
/// as its shortest round-trip decimal form (a non-empty JSON number
/// token); a non-finite value is written as `null`.  The output depends on
/// the bits alone.
#[verifier::external_body]
fn jsonf(b: u32) -> (r: String)
    ensures
        r@ == jsonf_chars(b),
        is_finite32(b) ==> num_seg(r@),
{
    let v = nalgebra_glm::uint_bits_to_float_scalar(b);
    serde_json::to_string(&v).unwrap_or_default()
}

/// Relies on `serde_json`'s single-precision number parsing: the token is
/// read directly as a single-precision value (with the `float_roundtrip`
/// feature this takes the dedicated correctly-rounded path,
/// `do_deserialize_f32`, not a double-precision detour).  Reading back the
/// shortest-form token that `serde_json` wrote for a finite
/// single-precision value therefore recovers exactly that value, so on
/// such a token the result is pinned to it.
#[verifier::external_body]
fn parsef(s: &str) -> (r: Option<u32>)
    ensures
        r == parsef_bits(s@),
        forall|b: u32| is_finite32(b) && s@ == jsonf_chars(b) ==> r == Some(b),
{
    match serde_json::from_str(s) {
        Ok(f) => Some(nalgebra_glm::float_bits_to_uint(f)),
        Err(_) => None,
    }
}

// ---------------------------------------------------------------------------
// The encoding.
// ---------------------------------------------------------------------------

/// The full encoding of a pose.
pub open spec fn enc_chars(d: CameraData) -> Seq<char> {
    "{\"center\":["@ + jsonf_chars(d.center.x) + ","@ + jsonf_chars(d.center.y) + ","@
        + jsonf_chars(d.center.z) + "],\"cam_axis\":["@ + jsonf_chars(d.cam_axis@[0]) + ","@
        + jsonf_chars(d.cam_axis@[1]) + ","@ + jsonf_chars(d.cam_axis@[2]) + ","@ + jsonf_chars(
        d.cam_axis@[3],
    ) + ","@ + jsonf_chars(d.cam_axis@[4]) + ","@ + jsonf_chars(d.cam_axis@[5]) + ","@
        + jsonf_chars(d.cam_axis@[6]) + ","@ + jsonf_chars(d.cam_axis@[7]) + ","@ + jsonf_chars(
        d.cam_axis@[8],
    ) + "],\"radius\":"@ + jsonf_chars(d.radius) + "}"@
}

/// All thirteen persisted scalars are finite.
pub open spec fn pose_finite(d: CameraData) -> bool {
    &&& is_finite32(d.center.x) && is_finite32(d.center.y) && is_finite32(d.center.z)
    &&& forall|k: int| 0 <= k < 9 ==> is_finite32(#[trigger] d.cam_axis@[k])
    &&& is_finite32(d.radius)
}

/// `s` is the encoding of the finite pose `d` (each embedded number token
/// a non-empty run of number characters, as the encoder guarantees).
pub open spec fn enc_wf(d: CameraData, s: Seq<char>) -> bool {
    &&& s == enc_chars(d)
    &&& pose_finite(d)
    &&& num_seg(jsonf_chars(d.center.x)) && num_seg(jsonf_chars(d.center.y)) && num_seg(
        jsonf_chars(d.center.z),
    )
    &&& forall|k: int| 0 <= k < 9 ==> num_seg(#[trigger] jsonf_chars(d.cam_axis@[k]))
    &&& num_seg(jsonf_chars(d.radius))
}

/// The thirteen persisted scalars, in encoding order.
pub open spec fn pose_field(d: CameraData, k: int) -> u32 {
    if k == 0 {
        d.center.x
    } else if k == 1 {
        d.center.y
    } else if k == 2 {
        d.center.z
    } else if k < 12 {
        d.cam_axis@[k - 3]
    } else {
        d.radius
    }
}

/// Start of the `k`-th number token in the encoding of `d`.
pub open spec fn seg_pos(d: CameraData, k: int) -> int
    decreases k, 0int,
{
    if k <= 0 {
        11
    } else if k == 3 {
        seg_end(d, 2) + 14
    } else if k == 12 {
        seg_end(d, 11) + 11
    } else {
        seg_end(d, k - 1) + 1
    }
}

/// End of the `k`-th number token.
pub open spec fn seg_end(d: CameraData, k: int) -> int
    decreases k, 1int,
{
    seg_pos(d, k) + jsonf_chars(pose_field(d, k)).len()
}

// ---------------------------------------------------------------------------
// Scanning.
// ---------------------------------------------------------------------------

/// The first position at or after `pos` holding a character that cannot
/// belong to a number token (or the end of the string).
pub open spec fn scan_end(s: Seq<char>, pos: int) -> int
    decreases s.len() - pos,
{
    if pos < 0 || pos >= s.len() {
        s.len() as int
    } else if is_json_num_char(s[pos]) {
        scan_end(s, pos + 1)
    } else {
        pos
    }
}

proof fn lemma_scan_end_is(s: Seq<char>, pos: int, q: int)
    requires
        0 <= pos <= q <= s.len(),
        forall|i: int| pos <= i < q ==> is_json_num_char(#[trigger] s[i]),
        q == s.len() || !is_json_num_char(s[q]),
    ensures
        scan_end(s, pos) == q,
    decreases q - pos,
{
    if pos < q {
        lemma_scan_end_is(s, pos + 1, q);
    }
}

/// Exec test for a number character.
fn is_num_char_e(c: char) -> (r: bool)
    ensures
        r == is_json_num_char(c),
{
    ('0' <= c && c <= '9') || c == '-' || c == '+' || c == '.' || c == 'e' || c == 'E'
}

/// Exec scan for the end of a number token.
#[verifier::loop_isolation(false)]
fn scan_number(s: &str, pos: usize, n: usize) -> (r: usize)
    requires
        pos <= n,
        n == s@.len(),
    ensures
        r == scan_end(s@, pos as int),
        pos <= r <= n,
{
    let mut cur = pos;
    while cur < n && is_num_char_e(s.get_char(cur))
        invariant
            pos <= cur <= n,
            forall|i: int| pos <= i < cur ==> is_json_num_char(#[trigger] s@[i]),
        decreases n - cur,
    {
        cur = cur + 1;
    }
    proof {
        lemma_scan_end_is(s@, pos as int, cur as int);
    }
    cur
}

/// Checks that `lit` occurs in `s` at position `pos`; on success returns
/// the position just past it.
#[verifier::loop_isolation(false)]
fn expect_lit(s: &str, pos: usize, n: usize, lit: &str) -> (r: Option<usize>)
    requires
        pos <= n,
        n == s@.len(),
    ensures
        r matches Some(p) ==> p == pos + lit@.len() && p <= n && s@.subrange(
            pos as int,
            pos + lit@.len(),
        ) == lit@,
        r is None ==> !(pos + lit@.len() <= n && s@.subrange(pos as int, pos + lit@.len())
            == lit@),
{
    let m = lit.unicode_len();
    if n - pos < m {
        return None;
    }
    let mut i: usize = 0;
    while i < m
        invariant
            0 <= i <= m,
            m == lit@.len(),
            pos + m <= n,
            forall|j: int| 0 <= j < i ==> s@[pos + j] == lit@[j],
        decreases m - i,
    {
        let a = s.get_char(pos + i);
        let b = lit.get_char(i);
        if a != b {
            proof {
                if s@.subrange(pos as int, pos + lit@.len()) == lit@ {
                    assert(s@.subrange(pos as int, pos + lit@.len())[i as int] == lit@[i as int]);
                }
            }
            return None;
        }
        i = i + 1;
    }
    proof {
        assert(s@.subrange(pos as int, pos + lit@.len()) =~= lit@);
    }
    Some(pos + m)
}

/// Parses one number token starting at `pos`: scans to its end and reads
/// it back.  A token written for a finite value gives back that exact
/// value.
fn parse_number(s: &str, pos: usize, n: usize) -> (r: Option<(u32, usize)>)
    requires
        pos <= n,
        n == s@.len(),
    ensures
        ({
            let end = scan_end(s@, pos as int);
            &&& (r matches Some(p) ==> p.1 == end && pos < end <= n && (forall|b: u32|
                is_finite32(b) && s@.subrange(pos as int, end) == jsonf_chars(b) ==> p.0 == b))
            &&& (r is None ==> (forall|b: u32|
                !(is_finite32(b) && end > pos && s@.subrange(pos as int, end) == jsonf_chars(b))))
        }),
{
    let end = scan_number(s, pos, n);
    if end == pos {
        return None;
    }
    let sub = s.substring_char(pos, end);
    match parsef(sub) {
        Some(b) => Some((b, end)),
        None => {
            proof {
                assert forall|b: u32|
                    !(is_finite32(b) && scan_end(s@, pos as int) > pos && s@.subrange(
                        pos as int,
                        scan_end(s@, pos as int),
                    ) == jsonf_chars(b)) by {
                    if is_finite32(b) && s@.subrange(pos as int, scan_end(s@, pos as int))
                        == jsonf_chars(b) {
                        assert(sub@ == jsonf_chars(b));
                    }
                }
            }
            None
        },
    }
}

proof fn lemma_peel(s: Seq<char>, pre: Seq<char>, mid: Seq<char>)
    requires
        pre.len() + mid.len() <= s.len(),
        s.subrange(0, (pre.len() + mid.len()) as int) == pre + mid,
    ensures
        s.subrange(0, pre.len() as int) == pre,
        s.subrange(pre.len() as int, (pre.len() + mid.len()) as int) == mid,
{
    let l = pre.len() as int;
    let m = mid.len() as int;
    assert forall|i: int| 0 <= i < l implies s.subrange(0, l)[i] == pre[i] by {
        assert(s.subrange(0, l + m)[i] == (pre + mid)[i]);
    }
    assert(s.subrange(0, l) =~= pre);
    assert forall|i: int| 0 <= i < m implies s.subrange(l, l + m)[i] == mid[i] by {
        assert(s.subrange(0, l + m)[l + i] == (pre + mid)[l + i]);
    }
    assert(s.subrange(l, l + m) =~= mid);
}

#[verifier::rlimit(100)]
proof fn lemma_enc_slices(d: CameraData, s: Seq<char>)
    requires
        enc_wf(d, s),
    ensures
        s.len() == seg_end(d, 12) + 1,
        s.subrange(0, 11) == "{\"center\":["@,
        s.subrange(seg_pos(d, 0), seg_end(d, 0)) == jsonf_chars(pose_field(d, 0)),
        0 <= seg_pos(d, 0) < seg_end(d, 0) < s.len(),
        s.subrange(seg_pos(d, 1), seg_end(d, 1)) == jsonf_chars(pose_field(d, 1)),
        0 <= seg_pos(d, 1) < seg_end(d, 1) < s.len(),
        s.subrange(seg_pos(d, 2), seg_end(d, 2)) == jsonf_chars(pose_field(d, 2)),
        0 <= seg_pos(d, 2) < seg_end(d, 2) < s.len(),
        s.subrange(seg_pos(d, 3), seg_end(d, 3)) == jsonf_chars(pose_field(d, 3)),
        0 <= seg_pos(d, 3) < seg_end(d, 3) < s.len(),
        s.subrange(seg_pos(d, 4), seg_end(d, 4)) == jsonf_chars(pose_field(d, 4)),
        0 <= seg_pos(d, 4) < seg_end(d, 4) < s.len(),
        s.subrange(seg_pos(d, 5), seg_end(d, 5)) == jsonf_chars(pose_field(d, 5)),
        0 <= seg_pos(d, 5) < seg_end(d, 5) < s.len(),
        s.subrange(seg_pos(d, 6), seg_end(d, 6)) == jsonf_chars(pose_field(d, 6)),
        0 <= seg_pos(d, 6) < seg_end(d, 6) < s.len(),
        s.subrange(seg_pos(d, 7), seg_end(d, 7)) == jsonf_chars(pose_field(d, 7)),
        0 <= seg_pos(d, 7) < seg_end(d, 7) < s.len(),
        s.subrange(seg_pos(d, 8), seg_end(d, 8)) == jsonf_chars(pose_field(d, 8)),
        0 <= seg_pos(d, 8) < seg_end(d, 8) < s.len(),
        s.subrange(seg_pos(d, 9), seg_end(d, 9)) == jsonf_chars(pose_field(d, 9)),
        0 <= seg_pos(d, 9) < seg_end(d, 9) < s.len(),
        s.subrange(seg_pos(d, 10), seg_end(d, 10)) == jsonf_chars(pose_field(d, 10)),
        0 <= seg_pos(d, 10) < seg_end(d, 10) < s.len(),
        s.subrange(seg_pos(d, 11), seg_end(d, 11)) == jsonf_chars(pose_field(d, 11)),
        0 <= seg_pos(d, 11) < seg_end(d, 11) < s.len(),
        s.subrange(seg_pos(d, 12), seg_end(d, 12)) == jsonf_chars(pose_field(d, 12)),
        0 <= seg_pos(d, 12) < seg_end(d, 12) < s.len(),
        s.subrange(seg_end(d, 0), seg_pos(d, 1)) == ","@,
        s.subrange(seg_end(d, 1), seg_pos(d, 2)) == ","@,
        s.subrange(seg_end(d, 3), seg_pos(d, 4)) == ","@,
        s.subrange(seg_end(d, 4), seg_pos(d, 5)) == ","@,
        s.subrange(seg_end(d, 5), seg_pos(d, 6)) == ","@,
        s.subrange(seg_end(d, 6), seg_pos(d, 7)) == ","@,
        s.subrange(seg_end(d, 7), seg_pos(d, 8)) == ","@,
        s.subrange(seg_end(d, 8), seg_pos(d, 9)) == ","@,
        s.subrange(seg_end(d, 9), seg_pos(d, 10)) == ","@,
        s.subrange(seg_end(d, 10), seg_pos(d, 11)) == ","@,
        s.subrange(seg_end(d, 2), seg_pos(d, 3)) == "],\"cam_axis\":["@,
        s.subrange(seg_end(d, 11), seg_pos(d, 12)) == "],\"radius\":"@,
        s.subrange(seg_end(d, 12), seg_end(d, 12) + 1) == "}"@,
{
    reveal_strlit("{\"center\":[");
    reveal_strlit("],\"cam_axis\":[");
    reveal_strlit("],\"radius\":");
    reveal_strlit(",");
    reveal_strlit("}");
    assert("{\"center\":["@.len() == 11 && "],\"cam_axis\":["@.len() == 14 && "],\"radius\":"@.len() == 11 && ","@.len() == 1 && "}"@.len() == 1);

    let w1 = "{\"center\":["@;
    let w2 = w1 + jsonf_chars(pose_field(d, 0));
    let w3 = w2 + ","@;
    let w4 = w3 + jsonf_chars(pose_field(d, 1));
    let w5 = w4 + ","@;
    let w6 = w5 + jsonf_chars(pose_field(d, 2));
    let w7 = w6 + "],\"cam_axis\":["@;
    let w8 = w7 + jsonf_chars(pose_field(d, 3));
    let w9 = w8 + ","@;
    let w10 = w9 + jsonf_chars(pose_field(d, 4));
    let w11 = w10 + ","@;
    let w12 = w11 + jsonf_chars(pose_field(d, 5));
    let w13 = w12 + ","@;
    let w14 = w13 + jsonf_chars(pose_field(d, 6));
    let w15 = w14 + ","@;
    let w16 = w15 + jsonf_chars(pose_field(d, 7));
    let w17 = w16 + ","@;
    let w18 = w17 + jsonf_chars(pose_field(d, 8));
    let w19 = w18 + ","@;
    let w20 = w19 + jsonf_chars(pose_field(d, 9));
    let w21 = w20 + ","@;
    let w22 = w21 + jsonf_chars(pose_field(d, 10));
    let w23 = w22 + ","@;
    let w24 = w23 + jsonf_chars(pose_field(d, 11));
    let w25 = w24 + "],\"radius\":"@;
    let w26 = w25 + jsonf_chars(pose_field(d, 12));
    let w27 = w26 + "}"@;

    assert forall|k: int| 0 <= k < 13 implies num_seg(#[trigger] jsonf_chars(pose_field(d, k))) by {
        if 3 <= k < 12 {
            assert(num_seg(jsonf_chars(d.cam_axis@[k - 3])));
        }
    }

    assert(w27 == enc_chars(d));
    assert(s.subrange(0, w27.len() as int) =~= w27);
    lemma_peel(s, w26, "}"@);
    lemma_peel(s, w25, jsonf_chars(pose_field(d, 12)));
    lemma_peel(s, w24, "],\"radius\":"@);
    lemma_peel(s, w23, jsonf_chars(pose_field(d, 11)));
    lemma_peel(s, w22, ","@);
    lemma_peel(s, w21, jsonf_chars(pose_field(d, 10)));
    lemma_peel(s, w20, ","@);
    lemma_peel(s, w19, jsonf_chars(pose_field(d, 9)));
    lemma_peel(s, w18, ","@);
    lemma_peel(s, w17, jsonf_chars(pose_field(d, 8)));
    lemma_peel(s, w16, ","@);
    lemma_peel(s, w15, jsonf_chars(pose_field(d, 7)));
    lemma_peel(s, w14, ","@);
    lemma_peel(s, w13, jsonf_chars(pose_field(d, 6)));
    lemma_peel(s, w12, ","@);
    lemma_peel(s, w11, jsonf_chars(pose_field(d, 5)));
    lemma_peel(s, w10, ","@);
    lemma_peel(s, w9, jsonf_chars(pose_field(d, 4)));
    lemma_peel(s, w8, ","@);
    lemma_peel(s, w7, jsonf_chars(pose_field(d, 3)));
    lemma_peel(s, w6, "],\"cam_axis\":["@);
    lemma_peel(s, w5, jsonf_chars(pose_field(d, 2)));
    lemma_peel(s, w4, ","@);
    lemma_peel(s, w3, jsonf_chars(pose_field(d, 1)));
    lemma_peel(s, w2, ","@);
    lemma_peel(s, w1, jsonf_chars(pose_field(d, 0)));

    assert(seg_pos(d, 0) == w1.len());
    assert(seg_end(d, 0) == w2.len());
    assert(seg_pos(d, 1) == w3.len());
    assert(seg_end(d, 1) == w4.len());
    assert(seg_pos(d, 2) == w5.len());
    assert(seg_end(d, 2) == w6.len());
    assert(seg_pos(d, 3) == w7.len());
    assert(seg_end(d, 3) == w8.len());
    assert(seg_pos(d, 4) == w9.len());
    assert(seg_end(d, 4) == w10.len());
    assert(seg_pos(d, 5) == w11.len());
    assert(seg_end(d, 5) == w12.len());
    assert(seg_pos(d, 6) == w13.len());
    assert(seg_end(d, 6) == w14.len());
    assert(seg_pos(d, 7) == w15.len());
    assert(seg_end(d, 7) == w16.len());
    assert(seg_pos(d, 8) == w17.len());
    assert(seg_end(d, 8) == w18.len());
    assert(seg_pos(d, 9) == w19.len());
    assert(seg_end(d, 9) == w20.len());
    assert(seg_pos(d, 10) == w21.len());
    assert(seg_end(d, 10) == w22.len());
    assert(seg_pos(d, 11) == w23.len());
    assert(seg_end(d, 11) == w24.len());
    assert(seg_pos(d, 12) == w25.len());
    assert(seg_end(d, 12) == w26.len());
    assert(s.len() == w27.len());
}

/// The positional layout of an encoding: where each number token and each
/// separator lies, and that scanning from a token's start stops exactly at
/// its end.
#[verifier::rlimit(100)]
proof fn lemma_enc_boundaries(d: CameraData, s: Seq<char>)
    requires
        enc_wf(d, s),
    ensures
        s.len() == seg_end(d, 12) + 1,
        s.subrange(0, 11) == "{\"center\":["@,
        s.subrange(seg_pos(d, 0), seg_end(d, 0)) == jsonf_chars(pose_field(d, 0)),
        0 <= seg_pos(d, 0) < seg_end(d, 0) < s.len(),
        s.subrange(seg_pos(d, 1), seg_end(d, 1)) == jsonf_chars(pose_field(d, 1)),
        0 <= seg_pos(d, 1) < seg_end(d, 1) < s.len(),
        s.subrange(seg_pos(d, 2), seg_end(d, 2)) == jsonf_chars(pose_field(d, 2)),
        0 <= seg_pos(d, 2) < seg_end(d, 2) < s.len(),
        s.subrange(seg_pos(d, 3), seg_end(d, 3)) == jsonf_chars(pose_field(d, 3)),
        0 <= seg_pos(d, 3) < seg_end(d, 3) < s.len(),
        s.subrange(seg_pos(d, 4), seg_end(d, 4)) == jsonf_chars(pose_field(d, 4)),
        0 <= seg_pos(d, 4) < seg_end(d, 4) < s.len(),
        s.subrange(seg_pos(d, 5), seg_end(d, 5)) == jsonf_chars(pose_field(d, 5)),
        0 <= seg_pos(d, 5) < seg_end(d, 5) < s.len(),
        s.subrange(seg_pos(d, 6), seg_end(d, 6)) == jsonf_chars(pose_field(d, 6)),
        0 <= seg_pos(d, 6) < seg_end(d, 6) < s.len(),
        s.subrange(seg_pos(d, 7), seg_end(d, 7)) == jsonf_chars(pose_field(d, 7)),
        0 <= seg_pos(d, 7) < seg_end(d, 7) < s.len(),
        s.subrange(seg_pos(d, 8), seg_end(d, 8)) == jsonf_chars(pose_field(d, 8)),
        0 <= seg_pos(d, 8) < seg_end(d, 8) < s.len(),
        s.subrange(seg_pos(d, 9), seg_end(d, 9)) == jsonf_chars(pose_field(d, 9)),
        0 <= seg_pos(d, 9) < seg_end(d, 9) < s.len(),
        s.subrange(seg_pos(d, 10), seg_end(d, 10)) == jsonf_chars(pose_field(d, 10)),
        0 <= seg_pos(d, 10) < seg_end(d, 10) < s.len(),
        s.subrange(seg_pos(d, 11), seg_end(d, 11)) == jsonf_chars(pose_field(d, 11)),
        0 <= seg_pos(d, 11) < seg_end(d, 11) < s.len(),
        s.subrange(seg_pos(d, 12), seg_end(d, 12)) == jsonf_chars(pose_field(d, 12)),
        0 <= seg_pos(d, 12) < seg_end(d, 12) < s.len(),
        s.subrange(seg_end(d, 0), seg_pos(d, 1)) == ","@,
        s.subrange(seg_end(d, 1), seg_pos(d, 2)) == ","@,
        s.subrange(seg_end(d, 3), seg_pos(d, 4)) == ","@,
        s.subrange(seg_end(d, 4), seg_pos(d, 5)) == ","@,
        s.subrange(seg_end(d, 5), seg_pos(d, 6)) == ","@,
        s.subrange(seg_end(d, 6), seg_pos(d, 7)) == ","@,
        s.subrange(seg_end(d, 7), seg_pos(d, 8)) == ","@,
        s.subrange(seg_end(d, 8), seg_pos(d, 9)) == ","@,
        s.subrange(seg_end(d, 9), seg_pos(d, 10)) == ","@,
        s.subrange(seg_end(d, 10), seg_pos(d, 11)) == ","@,
        s.subrange(seg_end(d, 2), seg_pos(d, 3)) == "],\"cam_axis\":["@,
        s.subrange(seg_end(d, 11), seg_pos(d, 12)) == "],\"radius\":"@,
        s.subrange(seg_end(d, 12), seg_end(d, 12) + 1) == "}"@,
        scan_end(s, seg_pos(d, 0)) == seg_end(d, 0),
        scan_end(s, seg_pos(d, 1)) == seg_end(d, 1),
        scan_end(s, seg_pos(d, 2)) == seg_end(d, 2),
        scan_end(s, seg_pos(d, 3)) == seg_end(d, 3),
        scan_end(s, seg_pos(d, 4)) == seg_end(d, 4),
        scan_end(s, seg_pos(d, 5)) == seg_end(d, 5),
        scan_end(s, seg_pos(d, 6)) == seg_end(d, 6),
        scan_end(s, seg_pos(d, 7)) == seg_end(d, 7),
        scan_end(s, seg_pos(d, 8)) == seg_end(d, 8),
        scan_end(s, seg_pos(d, 9)) == seg_end(d, 9),
        scan_end(s, seg_pos(d, 10)) == seg_end(d, 10),
        scan_end(s, seg_pos(d, 11)) == seg_end(d, 11),
        scan_end(s, seg_pos(d, 12)) == seg_end(d, 12),
{
    lemma_enc_slices(d, s);
    reveal_strlit("{\"center\":[");
    reveal_strlit("],\"cam_axis\":[");
    reveal_strlit("],\"radius\":");
    reveal_strlit(",");
    reveal_strlit("}");
    assert(!is_json_num_char(',') && !is_json_num_char(']') && !is_json_num_char('}'));
    assert(s[seg_end(d, 0)] == ',') by {
        assert(s.subrange(seg_end(d, 0), seg_pos(d, 1))[0] == s[seg_end(d, 0)]);
    }
    assert forall|i: int| seg_pos(d, 0) <= i < seg_end(d, 0) implies is_json_num_char(
        #[trigger] s[i],
    ) by {
        let t = jsonf_chars(pose_field(d, 0));
        assert(num_seg(t));
        assert(s.subrange(seg_pos(d, 0), seg_end(d, 0))[i - seg_pos(d, 0)] == t[i - seg_pos(d, 0)]);
    }
    lemma_scan_end_is(s, seg_pos(d, 0), seg_end(d, 0));
    assert(s[seg_end(d, 1)] == ',') by {
        assert(s.subrange(seg_end(d, 1), seg_pos(d, 2))[0] == s[seg_end(d, 1)]);
    }
    assert forall|i: int| seg_pos(d, 1) <= i < seg_end(d, 1) implies is_json_num_char(
        #[trigger] s[i],
    ) by {
        let t = jsonf_chars(pose_field(d, 1));
        assert(num_seg(t));
        assert(s.subrange(seg_pos(d, 1), seg_end(d, 1))[i - seg_pos(d, 1)] == t[i - seg_pos(d, 1)]);
    }
    lemma_scan_end_is(s, seg_pos(d, 1), seg_end(d, 1));
    assert(s[seg_end(d, 2)] == ']') by {
        assert(s.subrange(seg_end(d, 2), seg_pos(d, 3))[0] == s[seg_end(d, 2)]);
    }
    assert forall|i: int| seg_pos(d, 2) <= i < seg_end(d, 2) implies is_json_num_char(
        #[trigger] s[i],
    ) by {
        let t = jsonf_chars(pose_field(d, 2));
        assert(num_seg(t));
        assert(s.subrange(seg_pos(d, 2), seg_end(d, 2))[i - seg_pos(d, 2)] == t[i - seg_pos(d, 2)]);
    }
    lemma_scan_end_is(s, seg_pos(d, 2), seg_end(d, 2));
    assert(s[seg_end(d, 3)] == ',') by {
        assert(s.subrange(seg_end(d, 3), seg_pos(d, 4))[0] == s[seg_end(d, 3)]);
    }
    assert forall|i: int| seg_pos(d, 3) <= i < seg_end(d, 3) implies is_json_num_char(
        #[trigger] s[i],
    ) by {
        let t = jsonf_chars(pose_field(d, 3));
        assert(num_seg(t)) by {
            assert(num_seg(jsonf_chars(d.cam_axis@[0])));
        }
        assert(s.subrange(seg_pos(d, 3), seg_end(d, 3))[i - seg_pos(d, 3)] == t[i - seg_pos(d, 3)]);
    }
    lemma_scan_end_is(s, seg_pos(d, 3), seg_end(d, 3));
    assert(s[seg_end(d, 4)] == ',') by {
        assert(s.subrange(seg_end(d, 4), seg_pos(d, 5))[0] == s[seg_end(d, 4)]);
    }
    assert forall|i: int| seg_pos(d, 4) <= i < seg_end(d, 4) implies is_json_num_char(
        #[trigger] s[i],
    ) by {
        let t = jsonf_chars(pose_field(d, 4));
        assert(num_seg(t)) by {
            assert(num_seg(jsonf_chars(d.cam_axis@[1])));
        }
        assert(s.subrange(seg_pos(d, 4), seg_end(d, 4))[i - seg_pos(d, 4)] == t[i - seg_pos(d, 4)]);
    }
    lemma_scan_end_is(s, seg_pos(d, 4), seg_end(d, 4));
    assert(s[seg_end(d, 5)] == ',') by {
        assert(s.subrange(seg_end(d, 5), seg_pos(d, 6))[0] == s[seg_end(d, 5)]);
    }
    assert forall|i: int| seg_pos(d, 5) <= i < seg_end(d, 5) implies is_json_num_char(
        #[trigger] s[i],
    ) by {
        let t = jsonf_chars(pose_field(d, 5));
        assert(num_seg(t)) by {
            assert(num_seg(jsonf_chars(d.cam_axis@[2])));
        }
        assert(s.subrange(seg_pos(d, 5), seg_end(d, 5))[i - seg_pos(d, 5)] == t[i - seg_pos(d, 5)]);
    }
    lemma_scan_end_is(s, seg_pos(d, 5), seg_end(d, 5));
    assert(s[seg_end(d, 6)] == ',') by {
        assert(s.subrange(seg_end(d, 6), seg_pos(d, 7))[0] == s[seg_end(d, 6)]);
    }
    assert forall|i: int| seg_pos(d, 6) <= i < seg_end(d, 6) implies is_json_num_char(
        #[trigger] s[i],
    ) by {
        let t = jsonf_chars(pose_field(d, 6));
        assert(num_seg(t)) by {
            assert(num_seg(jsonf_chars(d.cam_axis@[3])));
        }
        assert(s.subrange(seg_pos(d, 6), seg_end(d, 6))[i - seg_pos(d, 6)] == t[i - seg_pos(d, 6)]);
    }
    lemma_scan_end_is(s, seg_pos(d, 6), seg_end(d, 6));
    assert(s[seg_end(d, 7)] == ',') by {
        assert(s.subrange(seg_end(d, 7), seg_pos(d, 8))[0] == s[seg_end(d, 7)]);
    }
    assert forall|i: int| seg_pos(d, 7) <= i < seg_end(d, 7) implies is_json_num_char(
        #[trigger] s[i],
    ) by {
        let t = jsonf_chars(pose_field(d, 7));
        assert(num_seg(t)) by {
            assert(num_seg(jsonf_chars(d.cam_axis@[4])));
        }
        assert(s.subrange(seg_pos(d, 7), seg_end(d, 7))[i - seg_pos(d, 7)] == t[i - seg_pos(d, 7)]);
    }
    lemma_scan_end_is(s, seg_pos(d, 7), seg_end(d, 7));
    assert(s[seg_end(d, 8)] == ',') by {
        assert(s.subrange(seg_end(d, 8), seg_pos(d, 9))[0] == s[seg_end(d, 8)]);
    }
    assert forall|i: int| seg_pos(d, 8) <= i < seg_end(d, 8) implies is_json_num_char(
        #[trigger] s[i],
    ) by {
        let t = jsonf_chars(pose_field(d, 8));
        assert(num_seg(t)) by {
            assert(num_seg(jsonf_chars(d.cam_axis@[5])));
        }
        assert(s.subrange(seg_pos(d, 8), seg_end(d, 8))[i - seg_pos(d, 8)] == t[i - seg_pos(d, 8)]);
    }
    lemma_scan_end_is(s, seg_pos(d, 8), seg_end(d, 8));
    assert(s[seg_end(d, 9)] == ',') by {
        assert(s.subrange(seg_end(d, 9), seg_pos(d, 10))[0] == s[seg_end(d, 9)]);
    }
    assert forall|i: int| seg_pos(d, 9) <= i < seg_end(d, 9) implies is_json_num_char(
        #[trigger] s[i],
    ) by {
        let t = jsonf_chars(pose_field(d, 9));
        assert(num_seg(t)) by {
            assert(num_seg(jsonf_chars(d.cam_axis@[6])));
        }
        assert(s.subrange(seg_pos(d, 9), seg_end(d, 9))[i - seg_pos(d, 9)] == t[i - seg_pos(d, 9)]);
    }
    lemma_scan_end_is(s, seg_pos(d, 9), seg_end(d, 9));
    assert(s[seg_end(d, 10)] == ',') by {
        assert(s.subrange(seg_end(d, 10), seg_pos(d, 11))[0] == s[seg_end(d, 10)]);
    }
    assert forall|i: int| seg_pos(d, 10) <= i < seg_end(d, 10) implies is_json_num_char(
        #[trigger] s[i],
    ) by {
        let t = jsonf_chars(pose_field(d, 10));
        assert(num_seg(t)) by {
            assert(num_seg(jsonf_chars(d.cam_axis@[7])));
        }
        assert(s.subrange(seg_pos(d, 10), seg_end(d, 10))[i - seg_pos(d, 10)] == t[i - seg_pos(d, 10)]);
    }
    lemma_scan_end_is(s, seg_pos(d, 10), seg_end(d, 10));
    assert(s[seg_end(d, 11)] == ']') by {
        assert(s.subrange(seg_end(d, 11), seg_pos(d, 12))[0] == s[seg_end(d, 11)]);
    }
    assert forall|i: int| seg_pos(d, 11) <= i < seg_end(d, 11) implies is_json_num_char(
        #[trigger] s[i],
    ) by {
        let t = jsonf_chars(pose_field(d, 11));
        assert(num_seg(t)) by {
            assert(num_seg(jsonf_chars(d.cam_axis@[8])));
        }
        assert(s.subrange(seg_pos(d, 11), seg_end(d, 11))[i - seg_pos(d, 11)] == t[i - seg_pos(d, 11)]);
    }
    lemma_scan_end_is(s, seg_pos(d, 11), seg_end(d, 11));
    assert(s[seg_end(d, 12)] == '}') by {
        assert(s.subrange(seg_end(d, 12), seg_end(d, 12) + 1)[0] == s[seg_end(d, 12)]);
    }
    assert forall|i: int| seg_pos(d, 12) <= i < seg_end(d, 12) implies is_json_num_char(
        #[trigger] s[i],
    ) by {
        let t = jsonf_chars(pose_field(d, 12));
        assert(num_seg(t));
        assert(s.subrange(seg_pos(d, 12), seg_end(d, 12))[i - seg_pos(d, 12)] == t[i - seg_pos(d, 12)]);
    }
    lemma_scan_end_is(s, seg_pos(d, 12), seg_end(d, 12));
}



impl CameraData {
    /// Serializes the pose — center, frame (column-major) and log-radius —
    /// to its textual JSON form.  Window size and scene framing are not
    /// persisted.
    pub fn to_string(&self) -> (r: String)
        ensures
            r@ == enc_chars(*self),
            pose_finite(*self) ==> enc_wf(*self, r@),
    {
        let mut out = String::new();
        out.append("{\"center\":[");
        let t0 = jsonf(self.center.x);
        out.append(t0.as_str());
        out.append(",");
        let t1 = jsonf(self.center.y);
        out.append(t1.as_str());
        out.append(",");
        let t2 = jsonf(self.center.z);
        out.append(t2.as_str());
        out.append("],\"cam_axis\":[");
        let t3 = jsonf(self.cam_axis.m[0]);
        out.append(t3.as_str());
        out.append(",");
        let t4 = jsonf(self.cam_axis.m[1]);
        out.append(t4.as_str());
        out.append(",");
        let t5 = jsonf(self.cam_axis.m[2]);
        out.append(t5.as_str());
        out.append(",");
        let t6 = jsonf(self.cam_axis.m[3]);
        out.append(t6.as_str());
        out.append(",");
        let t7 = jsonf(self.cam_axis.m[4]);
        out.append(t7.as_str());
        out.append(",");
        let t8 = jsonf(self.cam_axis.m[5]);
        out.append(t8.as_str());
        out.append(",");
        let t9 = jsonf(self.cam_axis.m[6]);
        out.append(t9.as_str());
        out.append(",");
        let t10 = jsonf(self.cam_axis.m[7]);
        out.append(t10.as_str());
        out.append(",");
        let t11 = jsonf(self.cam_axis.m[8]);
        out.append(t11.as_str());
        out.append("],\"radius\":");
        let t12 = jsonf(self.radius);
        out.append(t12.as_str());
        out.append("}");
        proof {
            assert(jsonf_chars(self.center.x) == t0@);
            assert(jsonf_chars(self.center.y) == t1@);
            assert(jsonf_chars(self.center.z) == t2@);
            assert(jsonf_chars(self.cam_axis.m[0]) == t3@);
            assert(jsonf_chars(self.cam_axis.m[1]) == t4@);
            assert(jsonf_chars(self.cam_axis.m[2]) == t5@);
            assert(jsonf_chars(self.cam_axis.m[3]) == t6@);
            assert(jsonf_chars(self.cam_axis.m[4]) == t7@);
            assert(jsonf_chars(self.cam_axis.m[5]) == t8@);
            assert(jsonf_chars(self.cam_axis.m[6]) == t9@);
            assert(jsonf_chars(self.cam_axis.m[7]) == t10@);
            assert(jsonf_chars(self.cam_axis.m[8]) == t11@);
            assert(jsonf_chars(self.radius) == t12@);
            assert(out@ =~= enc_chars(*self));
            if pose_finite(*self) {
                assert forall|k: int| 0 <= k < 9 implies num_seg(#[trigger] jsonf_chars(
                    self.cam_axis@[k],
                )) by {
                    if k == 0 { assert(num_seg(t3@)); }
                    else if k == 1 { assert(num_seg(t4@)); }
                    else if k == 2 { assert(num_seg(t5@)); }
                    else if k == 3 { assert(num_seg(t6@)); }
                    else if k == 4 { assert(num_seg(t7@)); }
                    else if k == 5 { assert(num_seg(t8@)); }
                    else if k == 6 { assert(num_seg(t9@)); }
                    else if k == 7 { assert(num_seg(t10@)); }
                    else if k == 8 { assert(num_seg(t11@)); }
                    else { }
                }
            }
        }
        out
    }

    /// Restores the pose from its textual form.  The decoder accepts
    /// exactly the grammar the encoder emits — the three fields in
    /// canonical order, no whitespace — with arbitrary JSON number
    /// tokens.  This is a deliberate restriction: a record that a general
    /// JSON reader would also take (reordered fields, added whitespace)
    /// is rejected, so an edited or pretty-printed pose file must keep
    /// the canonical shape.  On success the center, frame and radius are
    /// set from the record and the session values (window size, scene
    /// framing) are untouched; on a malformed string the camera data is
    /// left exactly as it was.  Decoding an encoding of a finite pose
    /// succeeds and restores that pose exactly.
    #[verifier::rlimit(100)]
    pub fn set_from_string(&mut self, s: &str) -> (r: Result<(), ViewerError>)
        ensures
            r is Err ==> *final(self) == *old(self) && r == Result::<(), ViewerError>::Err(
                ViewerError::InvalidCameraString,
            ),
            r is Ok ==> final(self).window_size == old(self).window_size
                && final(self).scene_center == old(self).scene_center
                && final(self).scene_radius == old(self).scene_radius,
            forall|d: CameraData|
                enc_wf(d, s@) ==> r is Ok && final(self).center == d.center
                    && final(self).cam_axis@ == d.cam_axis@ && final(self).radius == d.radius,
    {
        let n = s.unicode_len();
        let mut ok = true;
        let mut pos: usize = 0;
        let mut vals: Vec<u32> = Vec::new();

        if ok {
            match expect_lit(s, pos, n, "{\"center\":[") {
                Some(p2) => {
                    pos = p2;
                },
                None => {
                    ok = false;
                },
            }
        }
        let ghost ok0 = ok;
        let ghost pos0 = pos as int;
        if ok {
            match parse_number(s, pos, n) {
                Some(bp) => {
                    vals.push(bp.0);
                    pos = bp.1;
                },
                None => {
                    ok = false;
                },
            }
        }
        let ghost ok1 = ok;
        let ghost pos1 = pos as int;
        let ghost vals1 = vals@;
        if ok {
            match expect_lit(s, pos, n, ",") {
                Some(p2) => {
                    pos = p2;
                },
                None => {
                    ok = false;
                },
            }
        }
        let ghost ok2 = ok;
        let ghost pos2 = pos as int;
        if ok {
            match parse_number(s, pos, n) {
                Some(bp) => {
                    vals.push(bp.0);
                    pos = bp.1;
                },
                None => {
                    ok = false;
                },
            }
        }
        let ghost ok3 = ok;
        let ghost pos3 = pos as int;
        let ghost vals3 = vals@;
        if ok {
            match expect_lit(s, pos, n, ",") {
                Some(p2) => {
                    pos = p2;
                },
                None => {
                    ok = false;
                },
            }
        }
        let ghost ok4 = ok;
        let ghost pos4 = pos as int;
        if ok {
            match parse_number(s, pos, n) {
                Some(bp) => {
                    vals.push(bp.0);
                    pos = bp.1;
                },
                None => {
                    ok = false;
                },
            }
        }
        let ghost ok5 = ok;
        let ghost pos5 = pos as int;
        let ghost vals5 = vals@;
        if ok {
            match expect_lit(s, pos, n, "],\"cam_axis\":[") {
                Some(p2) => {
                    pos = p2;
                },
                None => {
                    ok = false;
                },
            }
        }
        let ghost ok6 = ok;
        let ghost pos6 = pos as int;
        if ok {
            match parse_number(s, pos, n) {
                Some(bp) => {
                    vals.push(bp.0);
                    pos = bp.1;
                },
                None => {
                    ok = false;
                },
            }
        }
        let ghost ok7 = ok;
        let ghost pos7 = pos as int;
        let ghost vals7 = vals@;
        if ok {
            match expect_lit(s, pos, n, ",") {
                Some(p2) => {
                    pos = p2;
                },
                None => {
                    ok = false;
                },
            }
        }
        let ghost ok8 = ok;
        let ghost pos8 = pos as int;
        if ok {
            match parse_number(s, pos, n) {
                Some(bp) => {
                    vals.push(bp.0);
                    pos = bp.1;
                },
                None => {
                    ok = false;
                },
            }
        }
        let ghost ok9 = ok;
        let ghost pos9 = pos as int;
        let ghost vals9 = vals@;
        if ok {
            match expect_lit(s, pos, n, ",") {
                Some(p2) => {
                    pos = p2;
                },
                None => {
                    ok = false;
                },
            }
        }
        let ghost ok10 = ok;
        let ghost pos10 = pos as int;
        if ok {
            match parse_number(s, pos, n) {
                Some(bp) => {
                    vals.push(bp.0);
                    pos = bp.1;
                },
                None => {
                    ok = false;
                },
            }
        }
        let ghost ok11 = ok;
        let ghost pos11 = pos as int;
        let ghost vals11 = vals@;
        if ok {
            match expect_lit(s, pos, n, ",") {
                Some(p2) => {
                    pos = p2;
                },
                None => {
                    ok = false;
                },
            }
        }
        let ghost ok12 = ok;
        let ghost pos12 = pos as int;
        if ok {
            match parse_number(s, pos, n) {
                Some(bp) => {
                    vals.push(bp.0);
                    pos = bp.1;
                },
                None => {
                    ok = false;
                },
            }
        }
        let ghost ok13 = ok;
        let ghost pos13 = pos as int;
        let ghost vals13 = vals@;
        if ok {
            match expect_lit(s, pos, n, ",") {
                Some(p2) => {
                    pos = p2;
                },
                None => {
                    ok = false;
                },
            }
        }
        let ghost ok14 = ok;
        let ghost pos14 = pos as int;
        if ok {
            match parse_number(s, pos, n) {
                Some(bp) => {
                    vals.push(bp.0);
                    pos = bp.1;
                },
                None => {
                    ok = false;
                },
            }
        }
        let ghost ok15 = ok;
        let ghost pos15 = pos as int;
        let ghost vals15 = vals@;
        if ok {
            match expect_lit(s, pos, n, ",") {
                Some(p2) => {
                    pos = p2;
                },
                None => {
                    ok = false;
                },
            }
        }
        let ghost ok16 = ok;
        let ghost pos16 = pos as int;
        if ok {
            match parse_number(s, pos, n) {
                Some(bp) => {
                    vals.push(bp.0);
                    pos = bp.1;
                },
                None => {
                    ok = false;
                },
            }
        }
        let ghost ok17 = ok;
        let ghost pos17 = pos as int;
        let ghost vals17 = vals@;
        if ok {
            match expect_lit(s, pos, n, ",") {
                Some(p2) => {
                    pos = p2;
                },
                None => {
                    ok = false;
                },
            }
        }
        let ghost ok18 = ok;
        let ghost pos18 = pos as int;
        if ok {
            match parse_number(s, pos, n) {
                Some(bp) => {
                    vals.push(bp.0);
                    pos = bp.1;
                },
                None => {
                    ok = false;
                },
            }
        }
        let ghost ok19 = ok;
        let ghost pos19 = pos as int;
        let ghost vals19 = vals@;
        if ok {
            match expect_lit(s, pos, n, ",") {
                Some(p2) => {
                    pos = p2;
                },
                None => {
                    ok = false;
                },
            }
        }
        let ghost ok20 = ok;
        let ghost pos20 = pos as int;
        if ok {
            match parse_number(s, pos, n) {
                Some(bp) => {
                    vals.push(bp.0);
                    pos = bp.1;
                },
                None => {
                    ok = false;
                },
            }
        }
        let ghost ok21 = ok;
        let ghost pos21 = pos as int;
        let ghost vals21 = vals@;
        if ok {
            match expect_lit(s, pos, n, ",") {
                Some(p2) => {
                    pos = p2;
                },
                None => {
                    ok = false;
                },
            }
        }
        let ghost ok22 = ok;
        let ghost pos22 = pos as int;
        if ok {
            match parse_number(s, pos, n) {
                Some(bp) => {
                    vals.push(bp.0);
                    pos = bp.1;
                },
                None => {
                    ok = false;
                },
            }
        }
        let ghost ok23 = ok;
        let ghost pos23 = pos as int;
        let ghost vals23 = vals@;
        if ok {
            match expect_lit(s, pos, n, "],\"radius\":") {
                Some(p2) => {
                    pos = p2;
                },
                None => {
                    ok = false;
                },
            }
        }
        let ghost ok24 = ok;
        let ghost pos24 = pos as int;
        if ok {
            match parse_number(s, pos, n) {
                Some(bp) => {
                    vals.push(bp.0);
                    pos = bp.1;
                },
                None => {
                    ok = false;
                },
            }
        }
        let ghost ok25 = ok;
        let ghost pos25 = pos as int;
        let ghost vals25 = vals@;
        if ok {
            match expect_lit(s, pos, n, "}") {
                Some(p2) => {
                    pos = p2;
                },
                None => {
                    ok = false;
                },
            }
        }
        let ghost ok26 = ok;
        let ghost pos26 = pos as int;

        proof {
            assert forall|d: CameraData| enc_wf(d, s@) implies (ok && pos == n
                && vals@.len() == 13 && vals@[0] == d.center.x && vals@[1] == d.center.y
                && vals@[2] == d.center.z && (forall|k: int|
                0 <= k < 9 ==> vals@[3 + k] == d.cam_axis@[k]) && vals@[12] == d.radius) by {
                lemma_enc_boundaries(d, s@);
                reveal_strlit("{\"center\":[");
                reveal_strlit("],\"cam_axis\":[");
                reveal_strlit("],\"radius\":");
                reveal_strlit(",");
                reveal_strlit("}");
                assert(n == s@.len());
                assert(ok0 && pos0 == seg_pos(d, 0)) by {
                    assert(seg_pos(d, 0) == 11);
                    assert(0 <= seg_pos(d, 0) < seg_end(d, 0) < s@.len());
                    assert(s@.subrange(0, 11) == "{\"center\":["@);
                }
                assert(ok1 && pos1 == seg_end(d, 0) && vals1.len() == 1
                    && vals1[0] == pose_field(d, 0)) by {
                    assert(is_finite32(pose_field(d, 0)));
                    assert(s@.subrange(seg_pos(d, 0), seg_end(d, 0)) == jsonf_chars(pose_field(d, 0)));
                    assert(scan_end(s@, seg_pos(d, 0)) == seg_end(d, 0));
                    assert(0 <= seg_pos(d, 0) < seg_end(d, 0) < s@.len());
                }
                assert(ok2 && pos2 == seg_pos(d, 1)) by {
                    assert(s@.subrange(seg_end(d, 0), seg_pos(d, 1)) == ","@);
                    assert(seg_pos(d, 1) == seg_end(d, 0) + 1);
                    assert(0 <= seg_pos(d, 1) < seg_end(d, 1) < s@.len());
                }
                assert(ok3 && pos3 == seg_end(d, 1) && vals3.len() == 2
                    && vals3[1] == pose_field(d, 1)) by {
                    assert(is_finite32(pose_field(d, 1)));
                    assert(s@.subrange(seg_pos(d, 1), seg_end(d, 1)) == jsonf_chars(pose_field(d, 1)));
                    assert(scan_end(s@, seg_pos(d, 1)) == seg_end(d, 1));
                    assert(0 <= seg_pos(d, 1) < seg_end(d, 1) < s@.len());
                }
                assert(ok4 && pos4 == seg_pos(d, 2)) by {
                    assert(s@.subrange(seg_end(d, 1), seg_pos(d, 2)) == ","@);
                    assert(seg_pos(d, 2) == seg_end(d, 1) + 1);
                    assert(0 <= seg_pos(d, 2) < seg_end(d, 2) < s@.len());
                }
                assert(ok5 && pos5 == seg_end(d, 2) && vals5.len() == 3
                    && vals5[2] == pose_field(d, 2)) by {
                    assert(is_finite32(pose_field(d, 2)));
                    assert(s@.subrange(seg_pos(d, 2), seg_end(d, 2)) == jsonf_chars(pose_field(d, 2)));
                    assert(scan_end(s@, seg_pos(d, 2)) == seg_end(d, 2));
                    assert(0 <= seg_pos(d, 2) < seg_end(d, 2) < s@.len());
                }
                assert(ok6 && pos6 == seg_pos(d, 3)) by {
                    assert(s@.subrange(seg_end(d, 2), seg_pos(d, 3)) == "],\"cam_axis\":["@);
                    assert(seg_pos(d, 3) == seg_end(d, 2) + 14);
                    assert(0 <= seg_pos(d, 3) < seg_end(d, 3) < s@.len());
                }
                assert(ok7 && pos7 == seg_end(d, 3) && vals7.len() == 4
                    && vals7[3] == pose_field(d, 3)) by {
                    assert(is_finite32(pose_field(d, 3)));
                    assert(s@.subrange(seg_pos(d, 3), seg_end(d, 3)) == jsonf_chars(pose_field(d, 3)));
                    assert(scan_end(s@, seg_pos(d, 3)) == seg_end(d, 3));
                    assert(0 <= seg_pos(d, 3) < seg_end(d, 3) < s@.len());
                }
                assert(ok8 && pos8 == seg_pos(d, 4)) by {
                    assert(s@.subrange(seg_end(d, 3), seg_pos(d, 4)) == ","@);
                    assert(seg_pos(d, 4) == seg_end(d, 3) + 1);
                    assert(0 <= seg_pos(d, 4) < seg_end(d, 4) < s@.len());
                }
                assert(ok9 && pos9 == seg_end(d, 4) && vals9.len() == 5
                    && vals9[4] == pose_field(d, 4)) by {
                    assert(is_finite32(pose_field(d, 4)));
                    assert(s@.subrange(seg_pos(d, 4), seg_end(d, 4)) == jsonf_chars(pose_field(d, 4)));
                    assert(scan_end(s@, seg_pos(d, 4)) == seg_end(d, 4));
                    assert(0 <= seg_pos(d, 4) < seg_end(d, 4) < s@.len());
                }
                assert(ok10 && pos10 == seg_pos(d, 5)) by {
                    assert(s@.subrange(seg_end(d, 4), seg_pos(d, 5)) == ","@);
                    assert(seg_pos(d, 5) == seg_end(d, 4) + 1);
                    assert(0 <= seg_pos(d, 5) < seg_end(d, 5) < s@.len());
                }
                assert(ok11 && pos11 == seg_end(d, 5) && vals11.len() == 6
                    && vals11[5] == pose_field(d, 5)) by {
                    assert(is_finite32(pose_field(d, 5)));
                    assert(s@.subrange(seg_pos(d, 5), seg_end(d, 5)) == jsonf_chars(pose_field(d, 5)));
                    assert(scan_end(s@, seg_pos(d, 5)) == seg_end(d, 5));
                    assert(0 <= seg_pos(d, 5) < seg_end(d, 5) < s@.len());
                }
                assert(ok12 && pos12 == seg_pos(d, 6)) by {
                    assert(s@.subrange(seg_end(d, 5), seg_pos(d, 6)) == ","@);
                    assert(seg_pos(d, 6) == seg_end(d, 5) + 1);
                    assert(0 <= seg_pos(d, 6) < seg_end(d, 6) < s@.len());
                }
                assert(ok13 && pos13 == seg_end(d, 6) && vals13.len() == 7
                    && vals13[6] == pose_field(d, 6)) by {
                    assert(is_finite32(pose_field(d, 6)));
                    assert(s@.subrange(seg_pos(d, 6), seg_end(d, 6)) == jsonf_chars(pose_field(d, 6)));
                    assert(scan_end(s@, seg_pos(d, 6)) == seg_end(d, 6));
                    assert(0 <= seg_pos(d, 6) < seg_end(d, 6) < s@.len());
                }
                assert(ok14 && pos14 == seg_pos(d, 7)) by {
                    assert(s@.subrange(seg_end(d, 6), seg_pos(d, 7)) == ","@);
                    assert(seg_pos(d, 7) == seg_end(d, 6) + 1);
                    assert(0 <= seg_pos(d, 7) < seg_end(d, 7) < s@.len());
                }
                assert(ok15 && pos15 == seg_end(d, 7) && vals15.len() == 8
                    && vals15[7] == pose_field(d, 7)) by {
                    assert(is_finite32(pose_field(d, 7)));
                    assert(s@.subrange(seg_pos(d, 7), seg_end(d, 7)) == jsonf_chars(pose_field(d, 7)));
                    assert(scan_end(s@, seg_pos(d, 7)) == seg_end(d, 7));
                    assert(0 <= seg_pos(d, 7) < seg_end(d, 7) < s@.len());
                }
                assert(ok16 && pos16 == seg_pos(d, 8)) by {
                    assert(s@.subrange(seg_end(d, 7), seg_pos(d, 8)) == ","@);
                    assert(seg_pos(d, 8) == seg_end(d, 7) + 1);
                    assert(0 <= seg_pos(d, 8) < seg_end(d, 8) < s@.len());
                }
                assert(ok17 && pos17 == seg_end(d, 8) && vals17.len() == 9
                    && vals17[8] == pose_field(d, 8)) by {
                    assert(is_finite32(pose_field(d, 8)));
                    assert(s@.subrange(seg_pos(d, 8), seg_end(d, 8)) == jsonf_chars(pose_field(d, 8)));
                    assert(scan_end(s@, seg_pos(d, 8)) == seg_end(d, 8));
                    assert(0 <= seg_pos(d, 8) < seg_end(d, 8) < s@.len());
                }
                assert(ok18 && pos18 == seg_pos(d, 9)) by {
                    assert(s@.subrange(seg_end(d, 8), seg_pos(d, 9)) == ","@);
                    assert(seg_pos(d, 9) == seg_end(d, 8) + 1);
                    assert(0 <= seg_pos(d, 9) < seg_end(d, 9) < s@.len());
                }
                assert(ok19 && pos19 == seg_end(d, 9) && vals19.len() == 10
                    && vals19[9] == pose_field(d, 9)) by {
                    assert(is_finite32(pose_field(d, 9)));
                    assert(s@.subrange(seg_pos(d, 9), seg_end(d, 9)) == jsonf_chars(pose_field(d, 9)));
                    assert(scan_end(s@, seg_pos(d, 9)) == seg_end(d, 9));
                    assert(0 <= seg_pos(d, 9) < seg_end(d, 9) < s@.len());
                }
                assert(ok20 && pos20 == seg_pos(d, 10)) by {
                    assert(s@.subrange(seg_end(d, 9), seg_pos(d, 10)) == ","@);
                    assert(seg_pos(d, 10) == seg_end(d, 9) + 1);
                    assert(0 <= seg_pos(d, 10) < seg_end(d, 10) < s@.len());
                }
                assert(ok21 && pos21 == seg_end(d, 10) && vals21.len() == 11
                    && vals21[10] == pose_field(d, 10)) by {
                    assert(is_finite32(pose_field(d, 10)));
                    assert(s@.subrange(seg_pos(d, 10), seg_end(d, 10)) == jsonf_chars(pose_field(d, 10)));
                    assert(scan_end(s@, seg_pos(d, 10)) == seg_end(d, 10));
                    assert(0 <= seg_pos(d, 10) < seg_end(d, 10) < s@.len());
                }
                assert(ok22 && pos22 == seg_pos(d, 11)) by {
                    assert(s@.subrange(seg_end(d, 10), seg_pos(d, 11)) == ","@);
                    assert(seg_pos(d, 11) == seg_end(d, 10) + 1);
                    assert(0 <= seg_pos(d, 11) < seg_end(d, 11) < s@.len());
                }
                assert(ok23 && pos23 == seg_end(d, 11) && vals23.len() == 12
                    && vals23[11] == pose_field(d, 11)) by {
                    assert(is_finite32(pose_field(d, 11)));
                    assert(s@.subrange(seg_pos(d, 11), seg_end(d, 11)) == jsonf_chars(pose_field(d, 11)));
                    assert(scan_end(s@, seg_pos(d, 11)) == seg_end(d, 11));
                    assert(0 <= seg_pos(d, 11) < seg_end(d, 11) < s@.len());
                }
                assert(ok24 && pos24 == seg_pos(d, 12)) by {
                    assert(s@.subrange(seg_end(d, 11), seg_pos(d, 12)) == "],\"radius\":"@);
                    assert(seg_pos(d, 12) == seg_end(d, 11) + 11);
                    assert(0 <= seg_pos(d, 12) < seg_end(d, 12) < s@.len());
                }
                assert(ok25 && pos25 == seg_end(d, 12) && vals25.len() == 13
                    && vals25[12] == pose_field(d, 12)) by {
                    assert(is_finite32(pose_field(d, 12)));
                    assert(s@.subrange(seg_pos(d, 12), seg_end(d, 12)) == jsonf_chars(pose_field(d, 12)));
                    assert(scan_end(s@, seg_pos(d, 12)) == seg_end(d, 12));
                    assert(0 <= seg_pos(d, 12) < seg_end(d, 12) < s@.len());
                }
                assert(ok26 && pos26 == seg_end(d, 12) + 1) by {
                    assert(s@.subrange(seg_end(d, 12), seg_end(d, 12) + 1) == "}"@);
                    assert(s@.len() == seg_end(d, 12) + 1);
                }

                assert(pos == pos26 && ok == ok26 && vals@ == vals25);
                assert(pos26 == seg_end(d, 12) + 1 && seg_end(d, 12) + 1 == s@.len());
                assert forall|k: int| 0 <= k < 9 implies vals@[3 + k] == d.cam_axis@[k] by {
                    if k == 0 { assert(vals7[3] == pose_field(d, 3)); }
                    else if k == 1 { assert(vals9[4] == pose_field(d, 4)); }
                    else if k == 2 { assert(vals11[5] == pose_field(d, 5)); }
                    else if k == 3 { assert(vals13[6] == pose_field(d, 6)); }
                    else if k == 4 { assert(vals15[7] == pose_field(d, 7)); }
                    else if k == 5 { assert(vals17[8] == pose_field(d, 8)); }
                    else if k == 6 { assert(vals19[9] == pose_field(d, 9)); }
                    else if k == 7 { assert(vals21[10] == pose_field(d, 10)); }
                    else if k == 8 { assert(vals23[11] == pose_field(d, 11)); }
                    else { }
                }
            }
        }

        if ok && pos == n && vals.len() == 13 {
            self.center = Vec3 { x: vals[0], y: vals[1], z: vals[2] };
            self.cam_axis = Mat3 {
                m: [
                    vals[3], vals[4], vals[5], vals[6], vals[7], vals[8], vals[9], vals[10],
                    vals[11],
                ],
            };
            self.radius = vals[12];
            proof {
                assert forall|d: CameraData| enc_wf(d, s@) implies final(self).center == d.center
                    && final(self).cam_axis@ == d.cam_axis@ && final(self).radius == d.radius by {
                    assert(self.center.x == d.center.x && self.center.y == d.center.y
                        && self.center.z == d.center.z);
                    assert(self.cam_axis@ =~= d.cam_axis@);
                }
            }
            Ok(())
        } else {
            Err(ViewerError::InvalidCameraString)
        }
    }
}

} // verus!
