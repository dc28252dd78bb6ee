//! The verified core of an interactive viewer for hierarchical 3D models.
//!
//! Two subsystems carry the design: the scene compiler (`scene`), which
//! flattens a transform hierarchy into a deduplicated, render-ready
//! instance list, and the orbit camera (`camera`, `camera_data`), a small
//! interaction state machine that turns pointer drags into a numerically
//! stable view and projection transform with scene-relative clipping
//! planes.  `bbox` is the axis-aligned volume accumulator both use;
//! `camera_codec` persists the camera pose as text; `render` derives the
//! per-instance matrices of a frame.
//!
//! Floating-point values are carried as their IEEE 754 bit patterns
//! (`fbits`, `linalg`): every rounding operation is an outside call behind
//! a trusted wrapper whose result the contracts name, and everything
//! around those calls is verified.

pub mod args;
pub mod bbox;
pub mod camera;
pub mod camera_codec;
pub mod camera_data;
pub mod fbits;
pub mod linalg;
pub mod render;
pub mod scene;
pub mod viewer;

use vstd::prelude::*;

verus! {

/// The errors the viewer core reports.
#[derive(Clone, Copy, PartialEq, Eq, Structural, Debug)]
pub enum ViewerError {
    /// A scene framing was requested with a radius that is not strictly
    /// positive (a degenerate or empty volume).
    InvalidSceneRadius,
    /// A serialized camera state could not be parsed.
    InvalidCameraString,
    /// The program argument list does not hold exactly the input file.
    InvalidArguments,
}

impl ViewerError {
    /// A short description of the error.
    pub fn message(&self) -> (r: &'static str)
        ensures
            *self is InvalidSceneRadius ==> r@ == "Scene radius must be positive!!!"@,
            *self is InvalidCameraString ==> r@ == "Failed to parse camera data"@,
            *self is InvalidArguments ==> r@ == "Invalid number of program arguments"@,
    {
        match self {
            ViewerError::InvalidSceneRadius => "Scene radius must be positive!!!",
            ViewerError::InvalidCameraString => "Failed to parse camera data",
            ViewerError::InvalidArguments => "Invalid number of program arguments",
        }
    }
}

} // verus!
