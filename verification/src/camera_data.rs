//! The orbit camera's state and its derived matrices.
//!
//! The state is a pivot `center`, an orthonormal viewing frame `cam_axis`
//! (columns: right, up, view direction), the orbit distance stored as its
//! natural logarithm in `radius`, the window size, and the scene's framing
//! (`scene_center`, `scene_radius`) used for the adaptive clipping planes.
//! All scalars are single-precision bit patterns.
//!
//! Matrix derivation is pure: each getter's contract states the exact
//! composition of named floating-point operations that produces its result.

use vstd::prelude::*;

use crate::fbits::{
    abs_bits, add_bits, div_bits, exp_bits, float_le, float_lt, max_bits, mul_bits, neg_bits,
    sub_bits, tan_bits, u32f_bits, F32_DET_EPS, F32_NEAR_FLOOR, F32_NEG_ONE, F32_ONE, F32_TEN,
    F32_THREE_HALVES, F32_TWO, F32_ZERO,
};
use crate::linalg::{
    column3_bits, det3_bits, dot_bits, identity3_bits, invt3_bits, m3v_bits, m4mul_bits,
    mat3_to_mat4_bits, mat4_to_mat3_bits, normalize_bits, row2dot_bits, translation_bits,
    transpose3_bits, v3_add_bits, v3_neg_bits, v3_scale_bits, v3_sub_bits, Mat3, Mat4, Vec3,
};
use crate::ViewerError;

verus! {

/// The camera's state, scalars as bit patterns.
#[derive(Clone, Copy, PartialEq, Debug)]
pub struct CameraData {
    pub center: Vec3,
    pub cam_axis: Mat3,
    pub radius: u32,
    pub window_size: (u32, u32),
    pub scene_center: Vec3,
    pub scene_radius: u32,
}

// ---------------------------------------------------------------------------
// The derived quantities, as compositions of the named operations.
// ---------------------------------------------------------------------------

/// The camera's world position: `center + view_direction * exp(radius)`.
pub open spec fn cam_pos_bits(d: CameraData) -> Seq<u32> {
    v3_add_bits(d.center@, v3_scale_bits(column3_bits(d.cam_axis@, 2), exp_bits(d.radius)))
}

/// The model-view matrix: the transposed frame extended to homogeneous
/// coordinates, times the translation by the negated camera position.
pub open spec fn model_matrix_bits(d: CameraData) -> Seq<u32> {
    m4mul_bits(
        mat3_to_mat4_bits(transpose3_bits(d.cam_axis@)),
        translation_bits(v3_neg_bits(cam_pos_bits(d))),
    )
}

/// The window's aspect ratio, `width / height`.
pub open spec fn aspect_bits(d: CameraData) -> u32 {
    div_bits(u32f_bits(d.window_size.0), u32f_bits(d.window_size.1))
}

/// The scene center's view-space depth, sign-flipped to positive-forward:
/// `-(row 2 of model_view · (scene_center, 1))`.
pub open spec fn scene_depth_bits(d: CameraData) -> u32 {
    neg_bits(
        row2dot_bits(
            model_matrix_bits(d),
            d.scene_center.x,
            d.scene_center.y,
            d.scene_center.z,
            F32_ONE,
        ),
    )
}

/// The far clipping plane: `depth + scene_radius * 1.5`.
pub open spec fn far_bits(d: CameraData) -> u32 {
    add_bits(scene_depth_bits(d), mul_bits(d.scene_radius, F32_THREE_HALVES))
}

/// The near clipping plane: `max(depth - scene_radius, far * 1e-6)`.
pub open spec fn near_bits(d: CameraData) -> u32 {
    max_bits(sub_bits(scene_depth_bits(d), d.scene_radius), mul_bits(far_bits(d), F32_NEAR_FLOOR))
}

/// The perspective matrix built from aspect ratio, vertical field of view,
/// and the two clipping planes (column-major).
pub open spec fn perspective_bits(aspect: u32, fovy: u32, near: u32, far: u32) -> Seq<u32> {
    let tan_half = tan_bits(div_bits(fovy, F32_TWO));
    Seq::new(
        16,
        |i: int|
            if i == 0 {
                div_bits(F32_ONE, mul_bits(aspect, tan_half))
            } else if i == 5 {
                div_bits(F32_ONE, tan_half)
            } else if i == 10 {
                div_bits(neg_bits(add_bits(far, near)), sub_bits(far, near))
            } else if i == 11 {
                F32_NEG_ONE
            } else if i == 14 {
                div_bits(neg_bits(mul_bits(mul_bits(F32_TWO, far), near)), sub_bits(far, near))
            } else {
                F32_ZERO
            },
    )
}

/// The camera's projection matrix.
pub open spec fn projection_bits(d: CameraData) -> Seq<u32> {
    perspective_bits(aspect_bits(d), F32_ONE, near_bits(d), far_bits(d))
}

/// Projection times model-view.
pub open spec fn combined_bits(d: CameraData) -> Seq<u32> {
    m4mul_bits(projection_bits(d), model_matrix_bits(d))
}

/// The re-orthonormalized frame after applying the rotation `rot` to every
/// column of `axis`: normalize the right column, make up orthogonal to it
/// and normalize, make the view direction orthogonal to both and
/// normalize (Gram-Schmidt).
pub open spec fn rotated_axis_bits(axis: Seq<u32>, rot: Seq<u32>) -> Seq<u32> {
    let c0 = normalize_bits(m3v_bits(rot, column3_bits(axis, 0)));
    let c1r = m3v_bits(rot, column3_bits(axis, 1));
    let c1a = v3_sub_bits(c1r, v3_scale_bits(c0, dot_bits(c1r, c0)));
    let c1 = normalize_bits(c1a);
    let c2r = m3v_bits(rot, column3_bits(axis, 2));
    let c2a = v3_sub_bits(c2r, v3_scale_bits(c0, dot_bits(c2r, c0)));
    let c2b = v3_sub_bits(c2a, v3_scale_bits(c1, dot_bits(c2a, c1)));
    let c2 = normalize_bits(c2b);
    c0 + c1 + c2
}

/// The normal matrix of an upper-left 3x3 block `m`: `m` itself when its
/// determinant is within `1e-9` of zero (the degenerate-scale fallback),
/// otherwise its inverse-transpose.
pub open spec fn normal_matrix_bits(m: Seq<u32>) -> Seq<u32> {
    if float_le(abs_bits(det3_bits(m)), F32_DET_EPS) {
        m
    } else {
        invt3_bits(m)
    }
}

/// The perspective matrix, each entry computed by the named operations.
pub fn perspective(aspect: u32, fovy: u32, near: u32, far: u32) -> (r: Mat4)
    ensures
        r@ == perspective_bits(aspect, fovy, near, far),
{
    let tan_half = crate::fbits::f32_tan(crate::fbits::f32_div(fovy, F32_TWO));
    let m00 = crate::fbits::f32_div(F32_ONE, crate::fbits::f32_mul(aspect, tan_half));
    let m11 = crate::fbits::f32_div(F32_ONE, tan_half);
    let fmn = crate::fbits::f32_sub(far, near);
    let m22 = crate::fbits::f32_div(crate::fbits::f32_neg(crate::fbits::f32_add(far, near)), fmn);
    let m23 = crate::fbits::f32_div(
        crate::fbits::f32_neg(crate::fbits::f32_mul(crate::fbits::f32_mul(F32_TWO, far), near)),
        fmn,
    );
    let r = Mat4 {
        m: [
            m00, F32_ZERO, F32_ZERO, F32_ZERO,
            F32_ZERO, m11, F32_ZERO, F32_ZERO,
            F32_ZERO, F32_ZERO, m22, F32_NEG_ONE,
            F32_ZERO, F32_ZERO, m23, F32_ZERO,
        ],
    };
    proof {
        assert(r@ =~= perspective_bits(aspect, fovy, near, far));
    }
    r
}

/// The normal matrix for an arbitrary model-view matrix: the upper-left
/// 3x3 block, returned unchanged when its determinant is within `1e-9` of
/// zero, else inverse-transposed.
pub fn compute_normal_matrix(m: &Mat4) -> (r: Mat3)
    ensures
        r@ == normal_matrix_bits(mat4_to_mat3_bits(m@)),
{
    let m3 = m.to_mat3();
    let d = crate::linalg::determinant3(&m3);
    if crate::fbits::f32_le(crate::fbits::f32_abs(d), F32_DET_EPS) {
        m3
    } else {
        crate::linalg::inverse_transpose3(&m3)
    }
}

/// A freshly created camera data object: pivot at the origin, identity
/// frame, log-radius zero, a 100x100 window and a default scene framing.
pub open spec fn is_default_camera_data(r: CameraData) -> bool {
    &&& r.center.x == F32_ZERO && r.center.y == F32_ZERO && r.center.z == F32_ZERO
    &&& r.cam_axis@ == identity3_bits()
    &&& r.radius == F32_ZERO
    &&& r.window_size == (100u32, 100u32)
    &&& r.scene_center.x == F32_ZERO && r.scene_center.y == F32_ZERO && r.scene_center.z
        == F32_ZERO
    &&& r.scene_radius == F32_TEN
}

impl CameraData {
    /// Returns a new empty camera data object.
    pub fn new() -> (r: CameraData)
        ensures
            is_default_camera_data(r),
    {
        CameraData {
            center: Vec3::zero(),
            cam_axis: Mat3::identity(),
            radius: F32_ZERO,
            window_size: (100, 100),
            scene_center: Vec3::zero(),
            scene_radius: F32_TEN,
        }
    }

    /// Returns the model-view matrix for the camera.
    pub fn get_model_matrix(&self) -> (r: Mat4)
        ensures
            r@ == model_matrix_bits(*self),
    {
        let dir = self.cam_axis.column(2);

        // compute position of the camera
        let factor = crate::fbits::f32_exp(self.radius);
        let cam_pos = crate::linalg::v3_add(&self.center, &crate::linalg::v3_scale(&dir, factor));

        // create rotation matrix
        let rot_mat = self.cam_axis.transpose().to_mat4();

        let tmat = crate::linalg::translation(&crate::linalg::v3_neg(&cam_pos));
        crate::linalg::mat4_mul(&rot_mat, &tmat)
    }

    /// Returns the projection matrix for the camera.
    pub fn get_projection_matrix(&self) -> (r: Mat4)
        ensures
            r@ == projection_bits(*self),
    {
        let aspect = crate::fbits::f32_div(
            crate::fbits::u32_to_f32(self.window_size.0),
            crate::fbits::u32_to_f32(self.window_size.1),
        );

        let mmat = self.get_model_matrix();

        // transform the scene center into view space
        let z = crate::fbits::f32_neg(
            crate::linalg::mat4_row2_dot(
                &mmat,
                self.scene_center.x,
                self.scene_center.y,
                self.scene_center.z,
                F32_ONE,
            ),
        );

        // determine the clipping planes
        let far = crate::fbits::f32_add(
            z,
            crate::fbits::f32_mul(self.scene_radius, F32_THREE_HALVES),
        );
        let near = crate::fbits::f32_max(
            crate::fbits::f32_sub(z, self.scene_radius),
            crate::fbits::f32_mul(far, F32_NEAR_FLOOR),
        );

        perspective(aspect, F32_ONE, near, far)
    }

    /// Returns the combined matrix: projection times model-view.
    pub fn get_combined_matrix(&self) -> (r: Mat4)
        ensures
            r@ == combined_bits(*self),
    {
        let p = self.get_projection_matrix();
        let m = self.get_model_matrix();
        crate::linalg::mat4_mul(&p, &m)
    }

    /// Returns the normal matrix: the model-view's upper-left 3x3 block,
    /// unchanged when its determinant is within `1e-9` of zero, else its
    /// inverse-transpose.
    pub fn get_normal_matrix(&self) -> (r: Mat3)
        ensures
            r@ == normal_matrix_bits(mat4_to_mat3_bits(model_matrix_bits(*self))),
    {
        let m = self.get_model_matrix();
        compute_normal_matrix(&m)
    }

    pub fn get_window_size(&self) -> (r: (u32, u32))
        ensures
            r == self.window_size,
    {
        self.window_size
    }

    pub fn get_radius(&self) -> (r: u32)
        ensures
            r == self.radius,
    {
        self.radius
    }

    pub fn get_axis(&self) -> (r: &Mat3)
        ensures
            *r == self.cam_axis,
    {
        &self.cam_axis
    }

    pub fn get_center(&self) -> (r: &Vec3)
        ensures
            *r == self.center,
    {
        &self.center
    }

    /// Sets the scene framing used for the clipping planes.  A radius that
    /// is not strictly positive — including a NaN — is rejected and the
    /// state is unchanged.
    pub fn set_scene(&mut self, center: Vec3, radius: u32) -> (r: Result<(), ViewerError>)
        ensures
            !float_lt(F32_ZERO, radius) ==> r == Result::<(), ViewerError>::Err(
                ViewerError::InvalidSceneRadius,
            ) && *final(self) == *old(self),
            float_lt(F32_ZERO, radius) ==> r == Result::<(), ViewerError>::Ok(()) && *final(self)
                == (CameraData { scene_center: center, scene_radius: radius, ..*old(self) }),
    {
        if !crate::fbits::f32_lt(F32_ZERO, radius) {
            return Err(ViewerError::InvalidSceneRadius);
        }

        self.scene_center = center;
        self.scene_radius = radius;

        Ok(())
    }

    pub fn set_window_size(&mut self, w: u32, h: u32)
        ensures
            *final(self) == (CameraData { window_size: (w, h), ..*old(self) }),
    {
        self.window_size = (w, h);
    }

    /// Sets the stored (log-scale) radius.
    pub fn set_radius(&mut self, radius: u32)
        ensures
            *final(self) == (CameraData { radius, ..*old(self) }),
    {
        self.radius = radius;
    }

    pub fn set_center(&mut self, center: &Vec3)
        ensures
            *final(self) == (CameraData { center: *center, ..*old(self) }),
    {
        self.center = *center;
    }

    pub fn set_cam_axis(&mut self, cam_axis: Mat3)
        ensures
            *final(self) == (CameraData { cam_axis, ..*old(self) }),
    {
        self.cam_axis = cam_axis;
    }

    /// Applies `rot_mat` to every column of `axis` and re-orthonormalizes
    /// the result (Gram-Schmidt), preventing numerical drift from
    /// accumulating a non-orthogonal frame.
    pub fn set_rotated_cam_axis(&mut self, axis: &Mat3, rot_mat: &Mat3)
        ensures
            final(self).cam_axis@ == rotated_axis_bits(axis@, rot_mat@),
            *final(self) == (CameraData { cam_axis: final(self).cam_axis, ..*old(self) }),
    {
        // rotate the x axis
        let c0 = crate::linalg::normalize(
            &crate::linalg::mat3_mul_vec3(rot_mat, &axis.column(0)),
        );

        // rotate the y axis, make it orthogonal to x, renormalize
        let c1r = crate::linalg::mat3_mul_vec3(rot_mat, &axis.column(1));
        let c1a = crate::linalg::v3_sub(
            &c1r,
            &crate::linalg::v3_scale(&c0, crate::linalg::dot(&c1r, &c0)),
        );
        let c1 = crate::linalg::normalize(&c1a);

        // rotate the z axis, make it orthogonal to both, renormalize
        let c2r = crate::linalg::mat3_mul_vec3(rot_mat, &axis.column(2));
        let c2a = crate::linalg::v3_sub(
            &c2r,
            &crate::linalg::v3_scale(&c0, crate::linalg::dot(&c2r, &c0)),
        );
        let c2b = crate::linalg::v3_sub(
            &c2a,
            &crate::linalg::v3_scale(&c1, crate::linalg::dot(&c2a, &c1)),
        );
        let c2 = crate::linalg::normalize(&c2b);

        let next = crate::linalg::Mat3::from_columns(&c0, &c1, &c2);
        self.cam_axis = next;
    }
}

} // verus!
