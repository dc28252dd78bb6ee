//! Vectors and matrices of the viewer, held as IEEE 754 bit patterns.
//!
//! `Vec3` is a 3-vector; `Mat3` and `Mat4` are square matrices in
//! column-major element order (the order `nalgebra_glm` uses, and the order
//! in which the camera state is serialized).  Element shuffles — taking a
//! column, transposing, padding a 3x3 to a 4x4, building a translation —
//! are implemented and verified here; the rounding matrix arithmetic is
//! called in `nalgebra_glm` through trusted wrappers whose results the
//! contracts name.

use vstd::prelude::*;

use crate::fbits::{
    add_bits, mul_bits, neg_bits, sub_bits, F32_ONE, F32_ZERO,
};

verus! {

/// A 3-vector of single-precision bit patterns.
#[derive(Clone, Copy, PartialEq, Eq, Debug)]
pub struct Vec3 {
    pub x: u32,
    pub y: u32,
    pub z: u32,
}

/// A 3x3 matrix of single-precision bit patterns, column-major.
#[derive(Clone, Copy, PartialEq, Eq, Debug)]
pub struct Mat3 {
    pub m: [u32; 9],
}

/// A 4x4 matrix of single-precision bit patterns, column-major.
#[derive(Clone, Copy, PartialEq, Eq, Debug)]
pub struct Mat4 {
    pub m: [u32; 16],
}

impl View for Vec3 {
    type V = Seq<u32>;

    open spec fn view(&self) -> Seq<u32> {
        seq![self.x, self.y, self.z]
    }
}

impl View for Mat3 {
    type V = Seq<u32>;

    open spec fn view(&self) -> Seq<u32> {
        self.m@
    }
}

impl View for Mat4 {
    type V = Seq<u32>;

    open spec fn view(&self) -> Seq<u32> {
        self.m@
    }
}

// ---------------------------------------------------------------------------
// Element shuffles, described exactly.
// ---------------------------------------------------------------------------

/// The 3x3 identity.
pub open spec fn identity3_bits() -> Seq<u32> {
    seq![
        F32_ONE, F32_ZERO, F32_ZERO,
        F32_ZERO, F32_ONE, F32_ZERO,
        F32_ZERO, F32_ZERO, F32_ONE,
    ]
}

/// The 4x4 identity.
pub open spec fn identity4_bits() -> Seq<u32> {
    Seq::new(16, |i: int| if i % 4 == i / 4 { F32_ONE } else { F32_ZERO })
}

/// Column `j` of a column-major 3x3 matrix.
pub open spec fn column3_bits(m: Seq<u32>, j: int) -> Seq<u32> {
    m.subrange(3 * j, 3 * j + 3)
}

/// The transpose of a column-major 3x3 matrix.
pub open spec fn transpose3_bits(m: Seq<u32>) -> Seq<u32> {
    Seq::new(9, |i: int| m[(i % 3) * 3 + i / 3])
}

/// A 3x3 matrix extended to a 4x4: rotation block kept, last row and column
/// zero, lower-right corner one.
pub open spec fn mat3_to_mat4_bits(m: Seq<u32>) -> Seq<u32> {
    Seq::new(
        16,
        |i: int|
            if i / 4 < 3 && i % 4 < 3 {
                m[(i / 4) * 3 + i % 4]
            } else if i == 15 {
                F32_ONE
            } else {
                F32_ZERO
            },
    )
}

/// The upper-left 3x3 block of a 4x4 matrix.
pub open spec fn mat4_to_mat3_bits(m: Seq<u32>) -> Seq<u32> {
    Seq::new(9, |i: int| m[(i / 3) * 4 + i % 3])
}

/// The translation by `v`: the identity with `v` as the last column.
pub open spec fn translation_bits(v: Seq<u32>) -> Seq<u32> {
    Seq::new(
        16,
        |i: int|
            if 12 <= i < 15 {
                v[i - 12]
            } else if i % 4 == i / 4 {
                F32_ONE
            } else {
                F32_ZERO
            },
    )
}

/// Componentwise vector addition over the named scalar addition.
pub open spec fn v3_add_bits(a: Seq<u32>, b: Seq<u32>) -> Seq<u32> {
    seq![add_bits(a[0], b[0]), add_bits(a[1], b[1]), add_bits(a[2], b[2])]
}

/// Componentwise vector subtraction over the named scalar subtraction.
pub open spec fn v3_sub_bits(a: Seq<u32>, b: Seq<u32>) -> Seq<u32> {
    seq![sub_bits(a[0], b[0]), sub_bits(a[1], b[1]), sub_bits(a[2], b[2])]
}

/// A vector scaled by `s`, componentwise.
pub open spec fn v3_scale_bits(a: Seq<u32>, s: u32) -> Seq<u32> {
    seq![mul_bits(a[0], s), mul_bits(a[1], s), mul_bits(a[2], s)]
}

/// A vector negated componentwise (each sign bit flipped).
pub open spec fn v3_neg_bits(a: Seq<u32>) -> Seq<u32> {
    seq![neg_bits(a[0]), neg_bits(a[1]), neg_bits(a[2])]
}

impl Vec3 {
    /// The vector with all components `+0`.
    pub fn zero() -> (r: Vec3)
        ensures
            r.x == F32_ZERO && r.y == F32_ZERO && r.z == F32_ZERO,
    {
        Vec3 { x: F32_ZERO, y: F32_ZERO, z: F32_ZERO }
    }
}

impl Mat3 {
    /// The identity matrix.
    pub fn identity() -> (r: Mat3)
        ensures
            r@ == identity3_bits(),
    {
        let r = Mat3 {
            m: [
                F32_ONE, F32_ZERO, F32_ZERO,
                F32_ZERO, F32_ONE, F32_ZERO,
                F32_ZERO, F32_ZERO, F32_ONE,
            ],
        };
        proof {
            assert(r@ =~= identity3_bits());
        }
        r
    }

    /// Column `j` of the matrix.
    pub fn column(&self, j: usize) -> (r: Vec3)
        requires
            j < 3,
        ensures
            r@ == column3_bits(self@, j as int),
    {
        let r = Vec3 { x: self.m[3 * j], y: self.m[3 * j + 1], z: self.m[3 * j + 2] };
        proof {
            assert(r@ =~= column3_bits(self@, j as int));
        }
        r
    }

    /// The matrix with the given columns.
    pub fn from_columns(c0: &Vec3, c1: &Vec3, c2: &Vec3) -> (r: Mat3)
        ensures
            r@ == c0@ + c1@ + c2@,
    {
        let r = Mat3 { m: [c0.x, c0.y, c0.z, c1.x, c1.y, c1.z, c2.x, c2.y, c2.z] };
        proof {
            assert(r@ =~= c0@ + c1@ + c2@);
        }
        r
    }

    /// The transpose.
    pub fn transpose(&self) -> (r: Mat3)
        ensures
            r@ == transpose3_bits(self@),
    {
        let s = &self.m;
        let r = Mat3 { m: [s[0], s[3], s[6], s[1], s[4], s[7], s[2], s[5], s[8]] };
        proof {
            assert(r@ =~= transpose3_bits(self@));
        }
        r
    }

    /// The matrix extended to a 4x4 transform (no translation part).
    pub fn to_mat4(&self) -> (r: Mat4)
        ensures
            r@ == mat3_to_mat4_bits(self@),
    {
        let s = &self.m;
        let r = Mat4 {
            m: [
                s[0], s[1], s[2], F32_ZERO,
                s[3], s[4], s[5], F32_ZERO,
                s[6], s[7], s[8], F32_ZERO,
                F32_ZERO, F32_ZERO, F32_ZERO, F32_ONE,
            ],
        };
        proof {
            assert(r@ =~= mat3_to_mat4_bits(self@));
        }
        r
    }
}

impl Mat4 {
    /// The identity matrix.
    pub fn identity() -> (r: Mat4)
        ensures
            r@ == identity4_bits(),
    {
        let r = Mat4 {
            m: [
                F32_ONE, F32_ZERO, F32_ZERO, F32_ZERO,
                F32_ZERO, F32_ONE, F32_ZERO, F32_ZERO,
                F32_ZERO, F32_ZERO, F32_ONE, F32_ZERO,
                F32_ZERO, F32_ZERO, F32_ZERO, F32_ONE,
            ],
        };
        proof {
            assert(r@ =~= identity4_bits());
        }
        r
    }

    /// The upper-left 3x3 block.
    pub fn to_mat3(&self) -> (r: Mat3)
        ensures
            r@ == mat4_to_mat3_bits(self@),
    {
        let s = &self.m;
        let r = Mat3 { m: [s[0], s[1], s[2], s[4], s[5], s[6], s[8], s[9], s[10]] };
        proof {
            assert(r@ =~= mat4_to_mat3_bits(self@));
        }
        r
    }
}

/// The translation matrix moving the origin to `v`.
pub fn translation(v: &Vec3) -> (r: Mat4)
    ensures
        r@ == translation_bits(v@),
{
    let r = Mat4 {
        m: [
            F32_ONE, F32_ZERO, F32_ZERO, F32_ZERO,
            F32_ZERO, F32_ONE, F32_ZERO, F32_ZERO,
            F32_ZERO, F32_ZERO, F32_ONE, F32_ZERO,
            v.x, v.y, v.z, F32_ONE,
        ],
    };
    proof {
        assert(r@ =~= translation_bits(v@));
    }
    r
}

/// Componentwise vector addition, as `nalgebra_glm` adds vectors.
/// Adding a zero component to a non-NaN component leaves it numerically
/// unchanged and non-NaN.
pub fn v3_add(a: &Vec3, b: &Vec3) -> (r: Vec3)
    ensures
        r@ == v3_add_bits(a@, b@),
        !crate::fbits::is_nan32(a.x) && (b.x == F32_ZERO || b.x == crate::fbits::F32_NEG_ZERO)
            ==> crate::fbits::float_eq(r.x, a.x) && !crate::fbits::is_nan32(r.x),
        !crate::fbits::is_nan32(a.y) && (b.y == F32_ZERO || b.y == crate::fbits::F32_NEG_ZERO)
            ==> crate::fbits::float_eq(r.y, a.y) && !crate::fbits::is_nan32(r.y),
        !crate::fbits::is_nan32(a.z) && (b.z == F32_ZERO || b.z == crate::fbits::F32_NEG_ZERO)
            ==> crate::fbits::float_eq(r.z, a.z) && !crate::fbits::is_nan32(r.z),
{
    let r = Vec3 {
        x: crate::fbits::f32_add(a.x, b.x),
        y: crate::fbits::f32_add(a.y, b.y),
        z: crate::fbits::f32_add(a.z, b.z),
    };
    proof {
        assert(r@ =~= v3_add_bits(a@, b@));
    }
    r
}

/// Componentwise vector subtraction.
pub fn v3_sub(a: &Vec3, b: &Vec3) -> (r: Vec3)
    ensures
        r@ == v3_sub_bits(a@, b@),
{
    let r = Vec3 {
        x: crate::fbits::f32_sub(a.x, b.x),
        y: crate::fbits::f32_sub(a.y, b.y),
        z: crate::fbits::f32_sub(a.z, b.z),
    };
    proof {
        assert(r@ =~= v3_sub_bits(a@, b@));
    }
    r
}

/// A vector scaled by the scalar `s`, componentwise.  Scaling finite
/// components by a zero gives zero components.
pub fn v3_scale(a: &Vec3, s: u32) -> (r: Vec3)
    ensures
        r@ == v3_scale_bits(a@, s),
        (s == F32_ZERO || s == crate::fbits::F32_NEG_ZERO) && crate::fbits::is_finite32(a.x)
            ==> (r.x == F32_ZERO || r.x == crate::fbits::F32_NEG_ZERO),
        (s == F32_ZERO || s == crate::fbits::F32_NEG_ZERO) && crate::fbits::is_finite32(a.y)
            ==> (r.y == F32_ZERO || r.y == crate::fbits::F32_NEG_ZERO),
        (s == F32_ZERO || s == crate::fbits::F32_NEG_ZERO) && crate::fbits::is_finite32(a.z)
            ==> (r.z == F32_ZERO || r.z == crate::fbits::F32_NEG_ZERO),
{
    let r = Vec3 {
        x: crate::fbits::f32_mul(a.x, s),
        y: crate::fbits::f32_mul(a.y, s),
        z: crate::fbits::f32_mul(a.z, s),
    };
    proof {
        assert(r@ =~= v3_scale_bits(a@, s));
    }
    r
}

/// A vector negated componentwise.
pub fn v3_neg(a: &Vec3) -> (r: Vec3)
    ensures
        r@ == v3_neg_bits(a@),
{
    let r = Vec3 {
        x: crate::fbits::f32_neg(a.x),
        y: crate::fbits::f32_neg(a.y),
        z: crate::fbits::f32_neg(a.z),
    };
    proof {
        assert(r@ =~= v3_neg_bits(a@));
    }
    r
}

// ---------------------------------------------------------------------------
// Names for the results of the rounding matrix arithmetic.
// ---------------------------------------------------------------------------

pub uninterp spec fn m4mul_bits(a: Seq<u32>, b: Seq<u32>) -> Seq<u32>;

pub uninterp spec fn m3v_bits(m: Seq<u32>, v: Seq<u32>) -> Seq<u32>;

pub uninterp spec fn row2dot_bits(m: Seq<u32>, x: u32, y: u32, z: u32, w: u32) -> u32;

pub uninterp spec fn tfpt_bits(m: Seq<u32>, p: Seq<u32>, w: u32) -> Seq<u32>;

pub uninterp spec fn rotation_bits(angle: u32, axis: Seq<u32>) -> Seq<u32>;

pub uninterp spec fn normalize_bits(v: Seq<u32>) -> Seq<u32>;

pub uninterp spec fn dot_bits(a: Seq<u32>, b: Seq<u32>) -> u32;

pub uninterp spec fn len_bits(v: Seq<u32>) -> u32;

pub uninterp spec fn det3_bits(m: Seq<u32>) -> u32;

pub uninterp spec fn invt3_bits(m: Seq<u32>) -> Seq<u32>;

// ---------------------------------------------------------------------------
// Trusted wrappers around `nalgebra_glm`.
// ---------------------------------------------------------------------------

/// Relies on `nalgebra_glm`'s 4x4 matrix product: a function of the
/// operands' bits alone.
#[verifier::external_body]
pub(crate) fn mat4_mul(a: &Mat4, b: &Mat4) -> (r: Mat4)
    ensures
        r@ == m4mul_bits(a@, b@),
{
    let fa = nalgebra_glm::Mat4::from_column_slice(
        &a.m.iter().map(|b| nalgebra_glm::uint_bits_to_float_scalar(*b)).collect::<Vec<_>>(),
    );
    let fb = nalgebra_glm::Mat4::from_column_slice(
        &b.m.iter().map(|b| nalgebra_glm::uint_bits_to_float_scalar(*b)).collect::<Vec<_>>(),
    );
    let p = fa * fb;
    let mut m = [0u32; 16];
    for (i, f) in p.as_slice().iter().enumerate() {
        m[i] = f.to_bits();
    }
    Mat4 { m }
}

/// Relies on `nalgebra_glm`'s 3x3 matrix by 3-vector product.
#[verifier::external_body]
pub(crate) fn mat3_mul_vec3(m: &Mat3, v: &Vec3) -> (r: Vec3)
    ensures
        r@ == m3v_bits(m@, v@),
{
    let fm = nalgebra_glm::Mat3::from_column_slice(
        &m.m.iter().map(|b| nalgebra_glm::uint_bits_to_float_scalar(*b)).collect::<Vec<_>>(),
    );
    let fv = nalgebra_glm::uint_bits_to_float(&nalgebra_glm::UVec3::new(v.x, v.y, v.z));
    let p = fm * fv;
    Vec3 { x: p.x.to_bits(), y: p.y.to_bits(), z: p.z.to_bits() }
}

/// Relies on `nalgebra`'s row extraction and row-by-vector product: the
/// product of row 2 of `m` with the column vector `(x, y, z, w)`.
#[verifier::external_body]
pub(crate) fn mat4_row2_dot(m: &Mat4, x: u32, y: u32, z: u32, w: u32) -> (r: u32)
    ensures
        r == row2dot_bits(m@, x, y, z, w),
{
    let fm = nalgebra_glm::Mat4::from_column_slice(
        &m.m.iter().map(|b| nalgebra_glm::uint_bits_to_float_scalar(*b)).collect::<Vec<_>>(),
    );
    let fv = nalgebra_glm::uint_bits_to_float(&nalgebra_glm::UVec4::new(x, y, z, w));
    let p = fm.row(2) * fv;
    p[(0, 0)].to_bits()
}

/// Relies on `nalgebra`'s 4x4 matrix by 4-vector product: the point `p`,
/// extended by the homogeneous coordinate `w`, transformed by `m`; the
/// result's first three components.
#[verifier::external_body]
pub(crate) fn transform_point(m: &Mat4, p: &Vec3, w: u32) -> (r: Vec3)
    ensures
        r@ == tfpt_bits(m@, p@, w),
{
    let fm = nalgebra_glm::Mat4::from_column_slice(
        &m.m.iter().map(|b| nalgebra_glm::uint_bits_to_float_scalar(*b)).collect::<Vec<_>>(),
    );
    let fv = nalgebra_glm::uint_bits_to_float(&nalgebra_glm::UVec4::new(p.x, p.y, p.z, w));
    let q = fm * fv;
    Vec3 { x: q.x.to_bits(), y: q.y.to_bits(), z: q.z.to_bits() }
}

/// Relies on `nalgebra_glm::rotation`: the rotation by `angle` radians about
/// the (not necessarily unit) axis `axis`, as a homogeneous 4x4 matrix.
/// It computes through the target's sine and cosine, whose precision Rust
/// leaves unspecified, so the naming assumes those are deterministic on
/// the target, as every real implementation is.
#[verifier::external_body]
pub(crate) fn rotation(angle: u32, axis: &Vec3) -> (r: Mat4)
    ensures
        r@ == rotation_bits(angle, axis@),
{
    let fa = nalgebra_glm::uint_bits_to_float_scalar(angle);
    let fv = nalgebra_glm::uint_bits_to_float(&nalgebra_glm::UVec3::new(axis.x, axis.y, axis.z));
    let p = nalgebra_glm::rotation(fa, &fv);
    let mut m = [0u32; 16];
    for (i, f) in p.as_slice().iter().enumerate() {
        m[i] = f.to_bits();
    }
    Mat4 { m }
}

/// Relies on `nalgebra_glm::normalize`: the vector divided by its norm.
#[verifier::external_body]
pub(crate) fn normalize(v: &Vec3) -> (r: Vec3)
    ensures
        r@ == normalize_bits(v@),
{
    let fv = nalgebra_glm::uint_bits_to_float(&nalgebra_glm::UVec3::new(v.x, v.y, v.z));
    let p = nalgebra_glm::normalize(&fv);
    Vec3 { x: p.x.to_bits(), y: p.y.to_bits(), z: p.z.to_bits() }
}

/// Relies on `nalgebra_glm::dot` on 3-vectors.
#[verifier::external_body]
pub(crate) fn dot(a: &Vec3, b: &Vec3) -> (r: u32)
    ensures
        r == dot_bits(a@, b@),
{
    let fa = nalgebra_glm::uint_bits_to_float(&nalgebra_glm::UVec3::new(a.x, a.y, a.z));
    let fb = nalgebra_glm::uint_bits_to_float(&nalgebra_glm::UVec3::new(b.x, b.y, b.z));
    nalgebra_glm::float_bits_to_uint(nalgebra_glm::dot(&fa, &fb))
}

/// Relies on `nalgebra_glm::length` on 3-vectors.  The norm of the zero
/// vector is exactly `+0` (a sum of exact zero products under an exact
/// square root).
#[verifier::external_body]
pub(crate) fn length(v: &Vec3) -> (r: u32)
    ensures
        r == len_bits(v@),
        v.x == F32_ZERO && v.y == F32_ZERO && v.z == F32_ZERO ==> r == F32_ZERO,
{
    let fv = nalgebra_glm::uint_bits_to_float(&nalgebra_glm::UVec3::new(v.x, v.y, v.z));
    nalgebra_glm::float_bits_to_uint(nalgebra_glm::length(&fv))
}

/// Relies on `nalgebra_glm::determinant` on 3x3 matrices.
#[verifier::external_body]
pub(crate) fn determinant3(m: &Mat3) -> (r: u32)
    ensures
        r == det3_bits(m@),
{
    let fm = nalgebra_glm::Mat3::from_column_slice(
        &m.m.iter().map(|b| nalgebra_glm::uint_bits_to_float_scalar(*b)).collect::<Vec<_>>(),
    );
    nalgebra_glm::float_bits_to_uint(nalgebra_glm::determinant(&fm))
}

/// Relies on `nalgebra_glm::inverse_transpose` on 3x3 matrices (which falls
/// back to the zero matrix when no inverse exists, and never fails).
#[verifier::external_body]
pub(crate) fn inverse_transpose3(m: &Mat3) -> (r: Mat3)
    ensures
        r@ == invt3_bits(m@),
{
    let fm = nalgebra_glm::Mat3::from_column_slice(
        &m.m.iter().map(|b| nalgebra_glm::uint_bits_to_float_scalar(*b)).collect::<Vec<_>>(),
    );
    let p = nalgebra_glm::inverse_transpose(fm);
    let mut out = [0u32; 9];
    for (i, f) in p.as_slice().iter().enumerate() {
        out[i] = f.to_bits();
    }
    Mat3 { m: out }
}

} // verus!
