//! Single- and double-precision values, carried as their IEEE 754 bit
//! patterns (`u32` / `u64`).
//!
//! The verified code never computes with floating point directly: every
//! arithmetic operation goes through a trusted wrapper at the bottom of this
//! file, and contracts speak of the operations' bit-level results.  The
//! comparison operators, negation and absolute value have exact bit-level
//! descriptions here; the rounding operations (add, mul, ...) are named by
//! uninterpreted functions, so that contracts can still pin each result down
//! as a function of the operands.
//!
//! Inside the wrappers, values move between bit patterns and floats through
//! `nalgebra_glm::uint_bits_to_float` / `float_bits_to_uint` (GLM's bit
//! casts) and the `to_bits` methods; the operation in between is the one
//! the wrapper's comment names.

use vstd::prelude::*;

verus! {

// ---------------------------------------------------------------------------
// Bit-level views of IEEE 754 values.
// ---------------------------------------------------------------------------

/// Magnitude (absolute value) of the bit pattern: the bits with the sign
/// cleared, read as an integer.
pub open spec fn mag32(b: u32) -> int {
    if b < 0x8000_0000 {
        b as int
    } else {
        b - 0x8000_0000
    }
}

/// A NaN has all exponent bits set and a non-zero fraction.
pub open spec fn is_nan32(b: u32) -> bool {
    mag32(b) > 0x7F80_0000
}

/// Finite: the exponent is not all-ones (neither an infinity nor a NaN).
pub open spec fn is_finite32(b: u32) -> bool {
    mag32(b) < 0x7F80_0000
}

/// Positive sign, non-zero and finite: a real value strictly above zero.
pub open spec fn is_pos_real32(b: u32) -> bool {
    0 < b < 0x7F80_0000
}

/// The numeric ordering key of a non-NaN value: magnitude, negated for
/// negative sign, so that `key32` orders bit patterns exactly as IEEE 754
/// orders the values they encode (the two zeros share the key 0).
pub open spec fn key32(b: u32) -> int {
    if b < 0x8000_0000 {
        mag32(b)
    } else {
        -mag32(b)
    }
}

/// The IEEE 754 `<` relation on two encoded values (false on any NaN).
pub open spec fn float_lt(a: u32, b: u32) -> bool {
    !is_nan32(a) && !is_nan32(b) && key32(a) < key32(b)
}

/// The IEEE 754 `<=` relation on two encoded values (false on any NaN).
pub open spec fn float_le(a: u32, b: u32) -> bool {
    !is_nan32(a) && !is_nan32(b) && key32(a) <= key32(b)
}

/// Numeric equality of two encoded values: equal as real values, which
/// identifies the two zeros and no other pair of distinct bit patterns.
pub open spec fn float_eq(a: u32, b: u32) -> bool {
    !is_nan32(a) && !is_nan32(b) && key32(a) == key32(b)
}

/// Negation flips the sign bit and changes nothing else.
pub open spec fn neg_bits(a: u32) -> u32 {
    if a < 0x8000_0000 {
        (a + 0x8000_0000) as u32
    } else {
        (a - 0x8000_0000) as u32
    }
}

/// Absolute value clears the sign bit and changes nothing else.
pub open spec fn abs_bits(a: u32) -> u32 {
    if a < 0x8000_0000 {
        a
    } else {
        (a - 0x8000_0000) as u32
    }
}

/// Magnitude of a double-precision bit pattern.
pub open spec fn mag64(b: u64) -> int {
    if b < 0x8000_0000_0000_0000 {
        b as int
    } else {
        b - 0x8000_0000_0000_0000
    }
}

/// Finite double-precision value: exponent not all-ones.
pub open spec fn is_finite64(b: u64) -> bool {
    mag64(b) < 0x7FF0_0000_0000_0000
}

// ---------------------------------------------------------------------------
// Bit patterns of the constants the viewer computes with.
// ---------------------------------------------------------------------------

pub const F32_ZERO: u32 = 0x0000_0000;

pub const F32_NEG_ZERO: u32 = 0x8000_0000;

pub const F32_ONE: u32 = 0x3F80_0000;

pub const F32_NEG_ONE: u32 = 0xBF80_0000;

pub const F32_THREE_HALVES: u32 = 0x3FC0_0000;

pub const F32_TWO: u32 = 0x4000_0000;

pub const F32_TWO_POINT_FIVE: u32 = 0x4020_0000;

pub const F32_TEN: u32 = 0x4120_0000;

/// 1.0e-6, the floor factor for the near clipping plane.
pub const F32_NEAR_FLOOR: u32 = 0x3586_37BD;

/// 1.0e-9, the determinant threshold of the normal-matrix fallback.
pub const F32_DET_EPS: u32 = 0x3089_705F;

/// The largest finite value (`f32::MAX`), the empty box's minimum corner.
pub const F32_MAX_BITS: u32 = 0x7F7F_FFFF;

/// The smallest finite value (`f32::MIN`), the empty box's maximum corner.
pub const F32_MIN_BITS: u32 = 0xFF7F_FFFF;

// ---------------------------------------------------------------------------
// Names for the results of the rounding operations.
// ---------------------------------------------------------------------------

pub uninterp spec fn add_bits(a: u32, b: u32) -> u32;

pub uninterp spec fn sub_bits(a: u32, b: u32) -> u32;

pub uninterp spec fn mul_bits(a: u32, b: u32) -> u32;

pub uninterp spec fn div_bits(a: u32, b: u32) -> u32;

pub uninterp spec fn exp_bits(a: u32) -> u32;

pub uninterp spec fn ln_bits(a: u32) -> u32;

pub uninterp spec fn tan_bits(a: u32) -> u32;

pub uninterp spec fn min_bits(a: u32, b: u32) -> u32;

pub uninterp spec fn max_bits(a: u32, b: u32) -> u32;

pub uninterp spec fn sub64_bits(a: u64, b: u64) -> u64;

pub uninterp spec fn demote_bits(a: u64) -> u32;

pub uninterp spec fn u32f_bits(w: u32) -> u32;

// ---------------------------------------------------------------------------
// Trusted wrappers around the hardware operations.
// ---------------------------------------------------------------------------

/// Relies on `f32` addition (IEEE 754, round to nearest even).  The extra
/// clauses are the standard's rules for adding a zero: the other operand
/// comes back unchanged, except that `-0 + +0` is `+0`.
#[verifier::external_body]
pub(crate) fn f32_add(a: u32, b: u32) -> (r: u32)
    ensures
        r == add_bits(a, b),
        b == F32_ZERO && !is_nan32(a) && a != F32_NEG_ZERO ==> r == a,
        b == F32_ZERO && a == F32_NEG_ZERO ==> r == F32_ZERO,
        b == F32_NEG_ZERO && !is_nan32(a) ==> r == a,
{
    let v = nalgebra_glm::uint_bits_to_float(&nalgebra_glm::UVec2::new(a, b));
    nalgebra_glm::float_bits_to_uint(v.x + v.y)
}

/// Relies on `f32` subtraction (IEEE 754).  Subtracting a finite value from
/// itself gives exactly `+0`.
#[verifier::external_body]
pub(crate) fn f32_sub(a: u32, b: u32) -> (r: u32)
    ensures
        r == sub_bits(a, b),
        a == b && is_finite32(a) ==> r == F32_ZERO,
{
    let v = nalgebra_glm::uint_bits_to_float(&nalgebra_glm::UVec2::new(a, b));
    nalgebra_glm::float_bits_to_uint(v.x - v.y)
}

/// Relies on `f32` multiplication (IEEE 754).  A positive zero times a
/// strictly positive finite value is exactly `+0`; a zero of either sign
/// times a finite value is a zero (of the product's sign).
#[verifier::external_body]
pub(crate) fn f32_mul(a: u32, b: u32) -> (r: u32)
    ensures
        r == mul_bits(a, b),
        a == F32_ZERO && is_pos_real32(b) ==> r == F32_ZERO,
        b == F32_ZERO && is_pos_real32(a) ==> r == F32_ZERO,
        (a == F32_ZERO || a == F32_NEG_ZERO) && is_finite32(b) ==> (r == F32_ZERO || r
            == F32_NEG_ZERO),
        (b == F32_ZERO || b == F32_NEG_ZERO) && is_finite32(a) ==> (r == F32_ZERO || r
            == F32_NEG_ZERO),
{
    let v = nalgebra_glm::uint_bits_to_float(&nalgebra_glm::UVec2::new(a, b));
    nalgebra_glm::float_bits_to_uint(v.x * v.y)
}

/// Relies on `f32` division (IEEE 754).  A positive zero divided by a
/// strictly positive finite value is exactly `+0`.
#[verifier::external_body]
pub(crate) fn f32_div(a: u32, b: u32) -> (r: u32)
    ensures
        r == div_bits(a, b),
        a == F32_ZERO && is_pos_real32(b) ==> r == F32_ZERO,
{
    let v = nalgebra_glm::uint_bits_to_float(&nalgebra_glm::UVec2::new(a, b));
    nalgebra_glm::float_bits_to_uint(v.x / v.y)
}

/// Relies on `f32::exp`: the result is a function of the operand's bits.
/// Rust leaves the precision of the transcendentals unspecified, so this
/// naming additionally assumes the target's implementation is a fixed
/// deterministic function, as every real one is.
#[verifier::external_body]
pub(crate) fn f32_exp(a: u32) -> (r: u32)
    ensures
        r == exp_bits(a),
{
    let v = nalgebra_glm::uint_bits_to_float(&nalgebra_glm::UVec1::new(a));
    nalgebra_glm::float_bits_to_uint(v.x.exp())
}

/// Relies on `f32::ln`: the result is a function of the operand's bits
/// (same determinism assumption as for `f32_exp`).
#[verifier::external_body]
pub(crate) fn f32_ln(a: u32) -> (r: u32)
    ensures
        r == ln_bits(a),
{
    let v = nalgebra_glm::uint_bits_to_float(&nalgebra_glm::UVec1::new(a));
    nalgebra_glm::float_bits_to_uint(v.x.ln())
}

/// Relies on `f32::tan`: the result is a function of the operand's bits
/// (same determinism assumption as for `f32_exp`).
#[verifier::external_body]
pub(crate) fn f32_tan(a: u32) -> (r: u32)
    ensures
        r == tan_bits(a),
{
    let v = nalgebra_glm::uint_bits_to_float(&nalgebra_glm::UVec1::new(a));
    nalgebra_glm::float_bits_to_uint(v.x.tan())
}

/// Relies on `f32` negation, which flips the sign bit and nothing else.
#[verifier::external_body]
pub(crate) fn f32_neg(a: u32) -> (r: u32)
    ensures
        r == neg_bits(a),
{
    let v = nalgebra_glm::uint_bits_to_float(&nalgebra_glm::UVec1::new(a));
    nalgebra_glm::float_bits_to_uint(-v.x)
}

/// Relies on `f32::abs`, which clears the sign bit and nothing else.
#[verifier::external_body]
pub(crate) fn f32_abs(a: u32) -> (r: u32)
    ensures
        r == abs_bits(a),
{
    let v = nalgebra_glm::uint_bits_to_float(&nalgebra_glm::UVec1::new(a));
    nalgebra_glm::float_bits_to_uint(v.x.abs())
}

/// Relies on the `f32` `<` comparison: non-NaN values are ordered by signed
/// magnitude, the two zeros are equal, and any NaN compares false.
#[verifier::external_body]
pub(crate) fn f32_lt(a: u32, b: u32) -> (r: bool)
    ensures
        r == float_lt(a, b),
{
    let v = nalgebra_glm::uint_bits_to_float(&nalgebra_glm::UVec2::new(a, b));
    v.x < v.y
}

/// Relies on the `f32` `<=` comparison, as for `f32_lt`.
#[verifier::external_body]
pub(crate) fn f32_le(a: u32, b: u32) -> (r: bool)
    ensures
        r == float_le(a, b),
{
    let v = nalgebra_glm::uint_bits_to_float(&nalgebra_glm::UVec2::new(a, b));
    v.x <= v.y
}

/// Relies on `f32::min`: the smaller operand comes back; a single NaN is
/// ignored; on a tie (only the two zeros) either operand may come back.
/// With both operands NaN only some NaN comes back.  The docs leave the
/// tie to either operand, so the naming additionally assumes the target
/// picks deterministically.
#[verifier::external_body]
pub(crate) fn f32_min(a: u32, b: u32) -> (r: u32)
    ensures
        r == min_bits(a, b),
        !is_nan32(a) || !is_nan32(b) ==> r == a || r == b,
        is_nan32(a) && is_nan32(b) ==> is_nan32(r),
        is_nan32(a) && !is_nan32(b) ==> r == b,
        is_nan32(b) && !is_nan32(a) ==> r == a,
        float_lt(a, b) ==> r == a,
        float_lt(b, a) ==> r == b,
        !is_nan32(a) && !is_nan32(b) ==> float_le(r, a) && float_le(r, b),
{
    let v = nalgebra_glm::uint_bits_to_float(&nalgebra_glm::UVec2::new(a, b));
    nalgebra_glm::float_bits_to_uint(v.x.min(v.y))
}

/// Relies on `f32::max`, symmetrically to `f32_min` (including its
/// determinism assumption on ties).
#[verifier::external_body]
pub(crate) fn f32_max(a: u32, b: u32) -> (r: u32)
    ensures
        r == max_bits(a, b),
        !is_nan32(a) || !is_nan32(b) ==> r == a || r == b,
        is_nan32(a) && is_nan32(b) ==> is_nan32(r),
        is_nan32(a) && !is_nan32(b) ==> r == b,
        is_nan32(b) && !is_nan32(a) ==> r == a,
        float_lt(a, b) ==> r == b,
        float_lt(b, a) ==> r == a,
        !is_nan32(a) && !is_nan32(b) ==> float_le(a, r) && float_le(b, r),
{
    let v = nalgebra_glm::uint_bits_to_float(&nalgebra_glm::UVec2::new(a, b));
    nalgebra_glm::float_bits_to_uint(v.x.max(v.y))
}

/// Relies on `f64` subtraction (IEEE 754).  Subtracting a finite value from
/// itself gives exactly `+0`.
#[verifier::external_body]
pub(crate) fn f64_sub(a: u64, b: u64) -> (r: u64)
    ensures
        r == sub64_bits(a, b),
        a == b && is_finite64(a) ==> r == 0u64,
{
    let v = nalgebra_glm::DVec2::new(bytemuck::cast(a), bytemuck::cast(b));
    (v.x - v.y).to_bits()
}

/// Relies on the `f64` to `f32` cast (IEEE 754 rounding), which carries a
/// positive zero to a positive zero.
#[verifier::external_body]
pub(crate) fn f64_to_f32(a: u64) -> (r: u32)
    ensures
        r == demote_bits(a),
        a == 0u64 ==> r == F32_ZERO,
{
    let v = nalgebra_glm::DVec1::new(bytemuck::cast(a));
    let f = num_traits::ToPrimitive::to_f32(&v.x).unwrap_or_default();
    nalgebra_glm::float_bits_to_uint(f)
}

/// Relies on the `u32` to `f32` cast: zero goes to `+0`, and any non-zero
/// count becomes a strictly positive finite value (every `u32` is far below
/// the largest finite `f32`).
#[verifier::external_body]
pub(crate) fn u32_to_f32(w: u32) -> (r: u32)
    ensures
        r == u32f_bits(w),
        w == 0 ==> r == F32_ZERO,
        w > 0 ==> is_pos_real32(r),
{
    let f = num_traits::ToPrimitive::to_f32(&w).unwrap_or_default();
    nalgebra_glm::float_bits_to_uint(f)
}

} // verus!
