//! The orbit camera's interaction state machine.
//!
//! A button press snapshots the camera state and the cursor position; while
//! a mode is active, every cursor move recomputes the live state from the
//! snapshot and the drag; the release applies the final recompute and
//! returns to `Nothing`.  Drags are normalized to fractions of the viewport.

use vstd::prelude::*;

use crate::bbox::{bbox_center, bbox_size, BBox};
use crate::camera_data::{rotated_axis_bits, CameraData};
use crate::fbits::{
    add_bits, demote_bits, div_bits, exp_bits, float_eq, float_lt, is_finite32, is_finite64,
    is_nan32, is_pos_real32, ln_bits, mul_bits, neg_bits, sub64_bits, u32f_bits, F32_THREE_HALVES,
    F32_TWO, F32_TWO_POINT_FIVE, F32_ZERO,
};
use crate::linalg::{
    column3_bits, len_bits, m4mul_bits, mat4_to_mat3_bits, rotation_bits, v3_add_bits,
    v3_scale_bits, Vec3,
};
use crate::ViewerError;

verus! {

/// The interaction mode.
#[derive(Clone, Copy, PartialEq, Eq, Structural, Debug)]
pub enum Mode {
    Nothing,
    Zoom,
    Move,
    Rotate,
}

/// A pointer button, as the windowing shell reports it.
#[derive(Clone, Copy, PartialEq, Eq, Structural, Debug)]
pub enum MouseButton {
    Left,
    Right,
    Middle,
    Other(u16),
}

/// The orbit camera: live state, interaction mode, and the snapshot taken
/// at press time (cursor position as double-precision bit patterns).
#[derive(Clone, Copy, PartialEq, Debug)]
pub struct Camera {
    pub data: CameraData,
    pub mode: Mode,
    pub save_cursor: [u64; 2],
    pub saved_data: CameraData,
}

/// The horizontal drag as a fraction of the viewport width:
/// `((x - saved_x) as f32) / (width as f32)`.
pub open spec fn xdrift_bits(cam: Camera, x: u64) -> u32 {
    div_bits(
        demote_bits(sub64_bits(x, cam.save_cursor@[0])),
        u32f_bits(cam.data.window_size.0),
    )
}

/// The vertical drag as a fraction of the viewport height.
pub open spec fn ydrift_bits(cam: Camera, y: u64) -> u32 {
    div_bits(
        demote_bits(sub64_bits(y, cam.save_cursor@[1])),
        u32f_bits(cam.data.window_size.1),
    )
}

/// The mode a button selects; any other button leaves the mode unchanged.
pub open spec fn mode_for_button(btn: MouseButton, current: Mode) -> Mode {
    match btn {
        MouseButton::Right => Mode::Zoom,
        MouseButton::Middle => Mode::Move,
        MouseButton::Left => Mode::Rotate,
        MouseButton::Other(_) => current,
    }
}

/// The conditions under which a `Move` drag released at the saved cursor
/// position provably leaves the pivot: a real viewport, a finite orbit
/// distance (`exp(radius)` neither infinite nor NaN), a frame without
/// non-finite entries in its right and up columns, and a pivot without
/// NaN components.
pub open spec fn pan_null_drag_safe(cam: Camera) -> bool {
    &&& cam.data.window_size.0 > 0
    &&& cam.data.window_size.1 > 0
    &&& is_pos_real32(exp_bits(cam.data.radius))
    &&& is_finite32(cam.data.cam_axis@[0]) && is_finite32(cam.data.cam_axis@[1]) && is_finite32(
        cam.data.cam_axis@[2],
    )
    &&& is_finite32(cam.data.cam_axis@[3]) && is_finite32(cam.data.cam_axis@[4]) && is_finite32(
        cam.data.cam_axis@[5],
    )
    &&& !is_nan32(cam.saved_data.center.x) && !is_nan32(cam.saved_data.center.y) && !is_nan32(
        cam.saved_data.center.z,
    )
}

/// The live camera data recomputed from the snapshot and the drag to
/// `(x, y)`, for each mode:
///
///  * `Nothing` leaves the data unchanged;
///  * `Zoom` sets the log-radius to `saved_radius + ydrift * 2`;
///  * `Move` shifts the saved center along the right and up columns,
///    scaled by the drag and the true orbit distance `exp(radius)`;
///  * `Rotate` composes the two drag rotations about the saved up and
///    right columns, applies them to the saved frame, and
///    re-orthonormalizes.
pub open spec fn modify_rel(cam: Camera, x: u64, y: u64, d: CameraData) -> bool {
    match cam.mode {
        Mode::Nothing => d == cam.data,
        Mode::Zoom => d == (CameraData {
            radius: add_bits(cam.saved_data.radius, mul_bits(ydrift_bits(cam, y), F32_TWO)),
            ..cam.data
        }),
        Mode::Move => {
            let ax = column3_bits(cam.data.cam_axis@, 0);
            let ay = column3_bits(cam.data.cam_axis@, 1);
            let factor = exp_bits(cam.data.radius);
            let xd = mul_bits(neg_bits(xdrift_bits(cam, x)), factor);
            let yd = mul_bits(ydrift_bits(cam, y), factor);
            let nc = v3_add_bits(
                v3_add_bits(cam.saved_data.center@, v3_scale_bits(ax, xd)),
                v3_scale_bits(ay, yd),
            );
            d == (CameraData {
                center: Vec3 { x: nc[0], y: nc[1], z: nc[2] },
                ..cam.data
            })
        },
        Mode::Rotate => {
            let xrot = rotation_bits(
                mul_bits(neg_bits(xdrift_bits(cam, x)), F32_TWO_POINT_FIVE),
                column3_bits(cam.saved_data.cam_axis@, 1),
            );
            let yrot = rotation_bits(
                mul_bits(neg_bits(ydrift_bits(cam, y)), F32_TWO_POINT_FIVE),
                column3_bits(cam.saved_data.cam_axis@, 0),
            );
            let rot = mat4_to_mat3_bits(m4mul_bits(yrot, xrot));
            &&& d.cam_axis@ == rotated_axis_bits(cam.saved_data.cam_axis@, rot)
            &&& d == (CameraData { cam_axis: d.cam_axis, ..cam.data })
        },
    }
}

impl Camera {
    /// Returns a camera over fresh camera data, idle, with a zero snapshot.
    pub fn new() -> (r: Camera)
        ensures
            crate::camera_data::is_default_camera_data(r.data),
            r.mode is Nothing,
            r.save_cursor@ == seq![0u64, 0u64],
            crate::camera_data::is_default_camera_data(r.saved_data),
    {
        let r = Camera {
            data: CameraData::new(),
            mode: Mode::Nothing,
            save_cursor: [0u64, 0u64],
            saved_data: CameraData::new(),
        };
        proof {
            assert(r.save_cursor@ =~= seq![0u64, 0u64]);
        }
        r
    }

    /// Updates the window size.
    pub fn update_window_size(&mut self, w: u32, h: u32)
        ensures
            final(self).data == (CameraData { window_size: (w, h), ..old(self).data }),
            final(self).mode == old(self).mode,
            final(self).save_cursor == old(self).save_cursor,
            final(self).saved_data == old(self).saved_data,
    {
        self.data.set_window_size(w, h);
    }

    /// Recomputes the live state from the snapshot and the drag.
    ///
    /// A release of a `Zoom` drag at the saved cursor position (with finite
    /// coordinates, a non-empty viewport and a non-NaN saved radius) leaves
    /// the radius numerically equal to the saved one.
    fn modify(&mut self, newx: u64, newy: u64)
        ensures
            modify_rel(*old(self), newx, newy, final(self).data),
            final(self).mode == old(self).mode,
            final(self).save_cursor == old(self).save_cursor,
            final(self).saved_data == old(self).saved_data,
            (old(self).mode is Zoom && newy == old(self).save_cursor@[1] && is_finite64(newy)
                && old(self).data.window_size.1 > 0 && !is_nan32(old(self).saved_data.radius))
                ==> float_eq(final(self).data.radius, old(self).saved_data.radius),
            (old(self).mode is Move && newx == old(self).save_cursor@[0] && newy == old(
                self,
            ).save_cursor@[1] && is_finite64(newx) && is_finite64(newy) && pan_null_drag_safe(
                *old(self),
            )) ==> {
                &&& float_eq(final(self).data.center.x, old(self).saved_data.center.x)
                &&& float_eq(final(self).data.center.y, old(self).saved_data.center.y)
                &&& float_eq(final(self).data.center.z, old(self).saved_data.center.z)
            },
    {
        match self.mode {
            Mode::Zoom => {
                let ydrift = crate::fbits::f32_div(
                    crate::fbits::f64_to_f32(crate::fbits::f64_sub(newy, self.save_cursor[1])),
                    crate::fbits::u32_to_f32(self.data.window_size.1),
                );
                let ydiff = crate::fbits::f32_mul(ydrift, F32_TWO);
                let new_radius = crate::fbits::f32_add(self.saved_data.radius, ydiff);
                self.data.set_radius(new_radius);
            },
            Mode::Move => {
                let xdrift = crate::fbits::f32_div(
                    crate::fbits::f64_to_f32(crate::fbits::f64_sub(newx, self.save_cursor[0])),
                    crate::fbits::u32_to_f32(self.data.window_size.0),
                );
                let ydrift = crate::fbits::f32_div(
                    crate::fbits::f64_to_f32(crate::fbits::f64_sub(newy, self.save_cursor[1])),
                    crate::fbits::u32_to_f32(self.data.window_size.1),
                );

                let xaxis = self.data.get_axis().column(0);
                let yaxis = self.data.get_axis().column(1);

                let factor = crate::fbits::f32_exp(self.data.get_radius());

                let xd = crate::fbits::f32_mul(crate::fbits::f32_neg(xdrift), factor);
                let yd = crate::fbits::f32_mul(ydrift, factor);

                let xoff = crate::linalg::v3_scale(&xaxis, xd);
                let yoff = crate::linalg::v3_scale(&yaxis, yd);
                let mid = crate::linalg::v3_add(self.saved_data.get_center(), &xoff);
                let new_center = crate::linalg::v3_add(&mid, &yoff);
                proof {
                    if newx == old(self).save_cursor@[0] && newy == old(self).save_cursor@[1]
                        && is_finite64(newx) && is_finite64(newy) && pan_null_drag_safe(
                        *old(self),
                    ) {
                        assert(xdrift == F32_ZERO && ydrift == F32_ZERO);
                        assert(crate::fbits::is_finite32(factor));
                        assert(xd == F32_ZERO || xd == crate::fbits::F32_NEG_ZERO);
                        assert(yd == F32_ZERO || yd == crate::fbits::F32_NEG_ZERO);
                        assert(xaxis.x == old(self).data.cam_axis@[0] && xaxis.y == old(
                            self,
                        ).data.cam_axis@[1] && xaxis.z == old(self).data.cam_axis@[2]);
                        assert(yaxis.x == old(self).data.cam_axis@[3] && yaxis.y == old(
                            self,
                        ).data.cam_axis@[4] && yaxis.z == old(self).data.cam_axis@[5]);
                        assert(float_eq(new_center.x, old(self).saved_data.center.x));
                        assert(float_eq(new_center.y, old(self).saved_data.center.y));
                        assert(float_eq(new_center.z, old(self).saved_data.center.z));
                    }
                }
                self.data.set_center(&new_center);
            },
            Mode::Rotate => {
                let xdrift = crate::fbits::f32_div(
                    crate::fbits::f64_to_f32(crate::fbits::f64_sub(newx, self.save_cursor[0])),
                    crate::fbits::u32_to_f32(self.data.window_size.0),
                );
                let ydrift = crate::fbits::f32_div(
                    crate::fbits::f64_to_f32(crate::fbits::f64_sub(newy, self.save_cursor[1])),
                    crate::fbits::u32_to_f32(self.data.window_size.1),
                );

                let saved_axis = self.saved_data.cam_axis;

                let xrot_mat = crate::linalg::rotation(
                    crate::fbits::f32_mul(crate::fbits::f32_neg(xdrift), F32_TWO_POINT_FIVE),
                    &saved_axis.column(1),
                );
                let yrot_mat = crate::linalg::rotation(
                    crate::fbits::f32_mul(crate::fbits::f32_neg(ydrift), F32_TWO_POINT_FIVE),
                    &saved_axis.column(0),
                );

                let rot_mat = crate::linalg::mat4_mul(&yrot_mat, &xrot_mat).to_mat3();

                let saved = self.saved_data.cam_axis;
                self.data.set_rotated_cam_axis(&saved, &rot_mat);
            },
            Mode::Nothing => {},
        }
    }

    /// Handles a button press or release at cursor position `(x, y)`.
    ///
    /// A press snapshots the camera state and the cursor, then selects the
    /// mode for the button (other buttons keep the mode).  A release
    /// applies the final recompute against the snapshot and returns to
    /// `Nothing`; released at the saved cursor position, a `Zoom` drag
    /// leaves the radius numerically where it was saved, and a `Move`
    /// drag the pivot (see `pan_null_drag_safe`).  A `Rotate` release
    /// re-orthonormalizes the frame even for a null drag, so its columns
    /// are not exactly preserved by the algorithm itself; the contract
    /// states the exact renormalization instead.
    pub fn update_mouse_button(&mut self, x: u64, y: u64, btn: MouseButton, pressed: bool)
        ensures
            pressed ==> {
                &&& final(self).data == old(self).data
                &&& final(self).saved_data == old(self).data
                &&& final(self).save_cursor@ == seq![x, y]
                &&& final(self).mode == mode_for_button(btn, old(self).mode)
            },
            !pressed ==> {
                &&& modify_rel(*old(self), x, y, final(self).data)
                &&& final(self).mode is Nothing
                &&& final(self).save_cursor == old(self).save_cursor
                &&& final(self).saved_data == old(self).saved_data
            },
            (!pressed && old(self).mode is Zoom && y == old(self).save_cursor@[1]
                && is_finite64(y) && old(self).data.window_size.1 > 0 && !is_nan32(
                old(self).saved_data.radius,
            )) ==> float_eq(final(self).data.radius, old(self).saved_data.radius),
            (!pressed && old(self).mode is Move && x == old(self).save_cursor@[0] && y == old(
                self,
            ).save_cursor@[1] && is_finite64(x) && is_finite64(y) && pan_null_drag_safe(
                *old(self),
            )) ==> {
                &&& float_eq(final(self).data.center.x, old(self).saved_data.center.x)
                &&& float_eq(final(self).data.center.y, old(self).saved_data.center.y)
                &&& float_eq(final(self).data.center.z, old(self).saved_data.center.z)
            },
    {
        if pressed {
            self.save_cursor[0] = x;
            self.save_cursor[1] = y;

            self.saved_data = self.data;

            match btn {
                MouseButton::Right => self.mode = Mode::Zoom,
                MouseButton::Middle => self.mode = Mode::Move,
                MouseButton::Left => self.mode = Mode::Rotate,
                MouseButton::Other(_) => {},
            }
            proof {
                assert(self.save_cursor@ =~= seq![x, y]);
            }
        } else {
            self.modify(x, y);
            self.mode = Mode::Nothing;
        }
    }

    /// Handles a cursor move: recomputes the live state from the snapshot.
    pub fn update_mouse_motion(&mut self, x: u64, y: u64)
        ensures
            modify_rel(*old(self), x, y, final(self).data),
            final(self).mode == old(self).mode,
            final(self).save_cursor == old(self).save_cursor,
            final(self).saved_data == old(self).saved_data,
    {
        self.modify(x, y);
    }

    /// Sets the orbit distance: the camera stores its natural logarithm.
    pub fn set_radius(&mut self, radius: u32)
        ensures
            final(self).data == (CameraData { radius: ln_bits(radius), ..old(self).data }),
            final(self).mode == old(self).mode,
            final(self).save_cursor == old(self).save_cursor,
            final(self).saved_data == old(self).saved_data,
    {
        let r = crate::fbits::f32_ln(radius);
        self.data.set_radius(r);
    }

    /// Focuses the camera on the given scene volume: the orbit distance
    /// becomes `length(size) * 1.5` (stored as its logarithm), the pivot
    /// and the scene framing move to the volume's center, and the scene
    /// radius becomes `length(size) / 2`.
    ///
    /// A volume whose size has no strictly positive length — in particular
    /// a volume collapsed to a single finite point, or one whose size is
    /// not a number — is rejected, and the camera is left exactly as it
    /// was.
    pub fn focus(&mut self, volume: &BBox) -> (r: Result<(), ViewerError>)
        ensures
            ({
                let box_size = len_bits(bbox_size(*volume));
                let scene_radius = div_bits(box_size, F32_TWO);
                let c = bbox_center(*volume);
                &&& !float_lt(F32_ZERO, scene_radius) ==> r == Result::<(), ViewerError>::Err(
                    ViewerError::InvalidSceneRadius,
                ) && *final(self) == *old(self)
                &&& float_lt(F32_ZERO, scene_radius) ==> {
                    &&& r == Result::<(), ViewerError>::Ok(())
                    &&& final(self).data == (CameraData {
                        radius: ln_bits(mul_bits(box_size, F32_THREE_HALVES)),
                        center: Vec3 { x: c[0], y: c[1], z: c[2] },
                        scene_center: Vec3 { x: c[0], y: c[1], z: c[2] },
                        scene_radius: scene_radius,
                        ..old(self).data
                    })
                    &&& final(self).mode == old(self).mode
                    &&& final(self).save_cursor == old(self).save_cursor
                    &&& final(self).saved_data == old(self).saved_data
                }
            }),
            volume.min == volume.max && is_finite32(volume.min.x) && is_finite32(volume.min.y)
                && is_finite32(volume.min.z) ==> r == Result::<(), ViewerError>::Err(
                ViewerError::InvalidSceneRadius,
            ) && *final(self) == *old(self),
    {
        let center = volume.get_center();
        let size = volume.get_size();
        let box_size = crate::linalg::length(&size);

        let scene_radius = crate::fbits::f32_div(box_size, F32_TWO);
        if !crate::fbits::f32_lt(F32_ZERO, scene_radius) {
            return Err(ViewerError::InvalidSceneRadius);
        }

        self.set_radius(crate::fbits::f32_mul(box_size, F32_THREE_HALVES));

        self.data.set_center(&center);

        let scene_center = volume.get_center();
        let res = self.data.set_scene(scene_center, scene_radius);
        proof {
            assert(res is Ok);
        }

        Ok(())
    }

    /// Returns a reference onto the internal camera data.
    pub fn get_data(&self) -> (r: &CameraData)
        ensures
            *r == self.data,
    {
        &self.data
    }
}

} // verus!
