//! Per-frame computation of the frame composer.
//!
//! Each frame walks the instances in traversal order and derives, for each,
//! the combined matrix and the normal matrix; the resource layer then sets
//! them as uniforms and issues the draw calls.  Only the computation lives
//! here; what these functions return goes to the shader unchanged.

use vstd::prelude::*;

use crate::camera_data::{normal_matrix_bits, compute_normal_matrix};
use crate::linalg::{m4mul_bits, mat4_to_mat3_bits, Mat3, Mat4, Vec3};
use crate::scene::{MaterialData, PrimitiveKind};
use crate::fbits::F32_ZERO;

verus! {

/// The matrices of one instance: the frame's combined matrix times the
/// instance transform, and the normal matrix of the model-view times the
/// instance transform.
pub fn instance_matrices(model_view: &Mat4, combined: &Mat4, instance_transform: &Mat4) -> (r: (
    Mat4,
    Mat3,
))
    ensures
        r.0@ == m4mul_bits(combined@, instance_transform@),
        r.1@ == normal_matrix_bits(
            mat4_to_mat3_bits(m4mul_bits(model_view@, instance_transform@)),
        ),
{
    let final_combined = crate::linalg::mat4_mul(combined, instance_transform);
    let mv = crate::linalg::mat4_mul(model_view, instance_transform);
    let normal = compute_normal_matrix(&mv);
    (final_combined, normal)
}

/// The diffuse color a material renders with: its own color, or black for
/// the empty material.
pub fn material_color(m: &MaterialData) -> (r: Vec3)
    ensures
        m.diffuse matches Some(c) ==> r == c,
        m.diffuse is None ==> r == (Vec3 { x: F32_ZERO, y: F32_ZERO, z: F32_ZERO }),
{
    match &m.diffuse {
        Some(c) => *c,
        None => Vec3 { x: F32_ZERO, y: F32_ZERO, z: F32_ZERO },
    }
}

/// The OpenGL primitive mode for a mesh topology (the values of the GL
/// `POINTS`, `LINES`, ... enumerants).
pub fn translate_primitive_type(primitive_type: PrimitiveKind) -> (r: u32)
    ensures
        primitive_type is Point ==> r == 0,
        primitive_type is Line ==> r == 1,
        primitive_type is LineLoop ==> r == 2,
        primitive_type is LineStrip ==> r == 3,
        primitive_type is Triangles ==> r == 4,
        primitive_type is TriangleFan ==> r == 6,
        primitive_type is TriangleStrip ==> r == 5,
{
    match primitive_type {
        PrimitiveKind::Point => 0,
        PrimitiveKind::Line => 1,
        PrimitiveKind::LineLoop => 2,
        PrimitiveKind::LineStrip => 3,
        PrimitiveKind::Triangles => 4,
        PrimitiveKind::TriangleFan => 6,
        PrimitiveKind::TriangleStrip => 5,
    }
}

} // verus!
