use cad_viewer::bbox::BBox;
use cad_viewer::camera::{Camera, MouseButton};
use cad_viewer::camera_data::{compute_normal_matrix, CameraData};
use cad_viewer::linalg::{Mat3, Mat4, Vec3};
use cad_viewer::ViewerError;

fn v3(x: f32, y: f32, z: f32) -> Vec3 {
    Vec3 { x: x.to_bits(), y: y.to_bits(), z: z.to_bits() }
}

fn v3_to_glm(v: &Vec3) -> nalgebra_glm::Vec3 {
    nalgebra_glm::Vec3::new(
        f32::from_bits(v.x),
        f32::from_bits(v.y),
        f32::from_bits(v.z),
    )
}

fn mat3_from_glm(m: &nalgebra_glm::Mat3) -> Mat3 {
    let mut out = [0u32; 9];
    for (i, f) in m.as_slice().iter().enumerate() {
        out[i] = f.to_bits();
    }
    Mat3 { m: out }
}

fn mat3_to_glm(m: &Mat3) -> nalgebra_glm::Mat3 {
    let fl: Vec<f32> = m.m.iter().map(|b| f32::from_bits(*b)).collect();
    nalgebra_glm::Mat3::from_column_slice(&fl)
}

fn mat4_to_glm(m: &Mat4) -> nalgebra_glm::Mat4 {
    let fl: Vec<f32> = m.m.iter().map(|b| f32::from_bits(*b)).collect();
    nalgebra_glm::Mat4::from_column_slice(&fl)
}

fn mat4_from_glm(m: &nalgebra_glm::Mat4) -> Mat4 {
    let mut out = [0u32; 16];
    for (i, f) in m.as_slice().iter().enumerate() {
        out[i] = f.to_bits();
    }
    Mat4 { m: out }
}

// The serialization round trip of the camera pose: encoding then decoding
// restores radius, center and frame exactly.
#[test]
fn test_serialization() {
    let mut cam_data = CameraData::new();
    cam_data.set_center(&v3(1f32, 2f32, 3f32));

    let r = nalgebra_glm::Mat3::from_columns(&[
        nalgebra_glm::Vec3::new(0f32, 0f32, 1f32),
        nalgebra_glm::Vec3::new(1f32, 0f32, 0f32),
        nalgebra_glm::Vec3::new(1f32, 0f32, 0f32),
    ]);

    cam_data.set_cam_axis(mat3_from_glm(&r));
    cam_data.set_radius(42f32.to_bits());

    let s: String = cam_data.to_string();

    let mut cam_data2 = CameraData::new();
    cam_data2.set_from_string(&s).unwrap();

    assert_eq!(cam_data2.get_radius(), 42f32.to_bits());
    assert_eq!(*cam_data2.get_center(), v3(1f32, 2f32, 3f32));
    assert_eq!(*cam_data2.get_axis(), mat3_from_glm(&r));
}

#[test]
fn serialization_roundtrip_awkward_values() {
    let mut d = CameraData::new();
    // 7.038531e-26 is the classic value whose shortest form is a ULP off
    // when parsed through double precision; the decoder must take the
    // single-precision path and restore it exactly.
    d.set_center(&v3(7.038531e-26f32, -1.0e-8f32, 3.4e38f32));
    d.set_radius((-0.0f32).to_bits());
    let g = nalgebra_glm::rotation(0.7f32, &nalgebra_glm::Vec3::new(0.3, -0.4, 0.85));
    let axis = mat3_from_glm(&nalgebra_glm::mat4_to_mat3(&g));
    d.set_cam_axis(axis);

    let s = d.to_string();
    let mut d2 = CameraData::new();
    d2.set_from_string(&s).unwrap();
    assert_eq!(d2.get_radius(), d.get_radius());
    assert_eq!(*d2.get_center(), *d.get_center());
    assert_eq!(*d2.get_axis(), *d.get_axis());
}

#[test]
fn serialization_rejects_garbage() {
    let mut d = CameraData::new();
    d.set_center(&v3(5.0, 6.0, 7.0));
    let before = d;
    assert!(d.set_from_string("not json at all").is_err());
    assert_eq!(d, before);
    assert!(d.set_from_string("{\"center\":[1.0,2.0],\"radius\":4}").is_err());
    assert_eq!(d, before);
    assert!(d.set_from_string("").is_err());
    assert_eq!(d, before);
}

// The decoder deliberately accepts only the canonical shape the encoder
// emits: reordered fields and whitespace between tokens are rejected, and
// the state is untouched.
#[test]
fn serialization_rejects_noncanonical_layout() {
    let mut d = CameraData::new();
    d.set_center(&v3(5.0, 6.0, 7.0));
    let before = d;

    let reordered = "{\"radius\":42.0,\"center\":[1.0,2.0,3.0],\"cam_axis\":[1.0,0.0,0.0,0.0,1.0,0.0,0.0,0.0,1.0]}";
    assert!(d.set_from_string(reordered).is_err());
    assert_eq!(d, before);

    let canonical = CameraData::new().to_string();
    let spaced = canonical.replacen('{', "{ ", 1);
    assert!(d.set_from_string(&spaced).is_err());
    assert_eq!(d, before);
}

#[test]
fn serialization_error_variant() {
    let mut d = CameraData::new();
    let e = d.set_from_string("{}").unwrap_err();
    assert_eq!(e, ViewerError::InvalidCameraString);
    assert_eq!(e.message(), "Failed to parse camera data");
}

// Zooming: radius moves by twice the vertical drag fraction, on the
// saved radius.
#[test]
fn zoom_drag_exact() {
    let mut cam = Camera::new();
    cam.set_radius(2.0f32.to_bits());
    let r0 = f32::from_bits(cam.get_data().get_radius());

    cam.update_mouse_button(10f64.to_bits(), 10f64.to_bits(), MouseButton::Right, true);
    cam.update_mouse_motion(10f64.to_bits(), 35f64.to_bits());
    cam.update_mouse_button(10f64.to_bits(), 60f64.to_bits(), MouseButton::Right, false);

    // window is 100x100 by default
    let drift = ((60f64 - 10f64) as f32) / 100f32;
    let expected = r0 + drift * 2.0f32;
    assert_eq!(cam.get_data().get_radius(), expected.to_bits());
}

// A press-then-release at the identical cursor position leaves the state
// numerically unchanged, in every mode.
#[test]
fn null_drag_zoom() {
    let mut cam = Camera::new();
    cam.set_radius(3.5f32.to_bits());
    let before = *cam.get_data();
    cam.update_mouse_button(12f64.to_bits(), 34f64.to_bits(), MouseButton::Right, true);
    cam.update_mouse_button(12f64.to_bits(), 34f64.to_bits(), MouseButton::Right, false);
    assert_eq!(*cam.get_data(), before);
}

#[test]
fn null_drag_pan() {
    let mut cam = Camera::new();
    cam.get_data();
    let before = *cam.get_data();
    cam.update_mouse_button(12f64.to_bits(), 34f64.to_bits(), MouseButton::Middle, true);
    cam.update_mouse_button(12f64.to_bits(), 34f64.to_bits(), MouseButton::Middle, false);
    assert_eq!(*cam.get_data(), before);
}

#[test]
fn null_drag_rotate() {
    let mut cam = Camera::new();
    let before = *cam.get_data();
    cam.update_mouse_button(12f64.to_bits(), 34f64.to_bits(), MouseButton::Left, true);
    cam.update_mouse_button(12f64.to_bits(), 34f64.to_bits(), MouseButton::Left, false);
    assert_eq!(*cam.get_data(), before);
}

// Other buttons change no mode: a release right after leaves everything
// unchanged.
#[test]
fn other_button_ignored() {
    let mut cam = Camera::new();
    let before = *cam.get_data();
    cam.update_mouse_button(1f64.to_bits(), 2f64.to_bits(), MouseButton::Other(7), true);
    cam.update_mouse_button(9f64.to_bits(), 9f64.to_bits(), MouseButton::Other(7), false);
    assert_eq!(*cam.get_data(), before);
}

// Panning: the saved center shifts along the right and up columns, scaled
// by the drag fractions and the true orbit distance.
#[test]
fn pan_drag_exact() {
    let mut cam = Camera::new();
    cam.update_mouse_button(0f64.to_bits(), 0f64.to_bits(), MouseButton::Middle, true);
    cam.update_mouse_button(25f64.to_bits(), 75f64.to_bits(), MouseButton::Middle, false);

    let xdrift = ((25f64 - 0f64) as f32) / 100f32;
    let ydrift = ((75f64 - 0f64) as f32) / 100f32;
    let factor = 0f32.exp();
    let ex = 0f32 + 1f32 * (-xdrift * factor);
    let ey = 0f32 + 1f32 * (ydrift * factor);
    let c = cam.get_data().get_center();
    assert_eq!(f32::from_bits(c.x), ex);
    assert_eq!(f32::from_bits(c.y), ey);
    assert_eq!(f32::from_bits(c.z), 0f32);
}

// Rotation: the library's result matches the same computation done
// directly with nalgebra_glm, bit for bit.
#[test]
fn rotate_drag_matches_glm() {
    let mut cam = Camera::new();
    cam.update_mouse_button(0f64.to_bits(), 0f64.to_bits(), MouseButton::Left, true);
    cam.update_mouse_button(30f64.to_bits(), 40f64.to_bits(), MouseButton::Left, false);

    let xdrift = ((30f64 - 0f64) as f32) / 100f32;
    let ydrift = ((40f64 - 0f64) as f32) / 100f32;
    let axis = nalgebra_glm::Mat3::identity();
    let xrot = nalgebra_glm::rotation(-xdrift * 2.5f32, &nalgebra_glm::column(&axis, 1));
    let yrot = nalgebra_glm::rotation(-ydrift * 2.5f32, &nalgebra_glm::column(&axis, 0));
    let rot = nalgebra_glm::mat4_to_mat3(&(yrot * xrot));

    let c0 = nalgebra_glm::normalize(&(rot * nalgebra_glm::column(&axis, 0)));
    let mut c1 = rot * nalgebra_glm::column(&axis, 1);
    c1 = c1 - c0 * nalgebra_glm::dot(&c1, &c0);
    c1 = nalgebra_glm::normalize(&c1);
    let mut c2 = rot * nalgebra_glm::column(&axis, 2);
    c2 = c2 - c0 * nalgebra_glm::dot(&c2, &c0);
    c2 = c2 - c1 * nalgebra_glm::dot(&c2, &c1);
    c2 = nalgebra_glm::normalize(&c2);
    let expected = nalgebra_glm::Mat3::from_columns(&[c0, c1, c2]);

    assert_eq!(*cam.get_data().get_axis(), mat3_from_glm(&expected));
}

// After arbitrary rotation drags the frame stays orthonormal within float
// tolerance.
#[test]
fn rotation_orthonormality() {
    let mut cam = Camera::new();
    let drags: [(f64, f64, f64, f64); 4] = [
        (0.0, 0.0, 400.0, -350.0),
        (10.0, 20.0, -3000.0, 77.0),
        (5.0, 5.0, 5.0, 900.0),
        (50.0, 60.0, -1.0, -2.0),
    ];
    for &(x0, y0, x1, y1) in drags.iter() {
        cam.update_mouse_button(x0.to_bits(), y0.to_bits(), MouseButton::Left, true);
        cam.update_mouse_motion((x0 + 1.0f64).to_bits(), (y0 + 1.0f64).to_bits());
        cam.update_mouse_button(x1.to_bits(), y1.to_bits(), MouseButton::Left, false);
    }
    let axis = mat3_to_glm(cam.get_data().get_axis());
    for i in 0..3 {
        let ci = axis.column(i);
        assert!((ci.norm() - 1.0f32).abs() < 1e-5);
        for j in 0..3 {
            if i != j {
                let d: f32 = ci.dot(&axis.column(j));
                assert!(d.abs() < 1e-5);
            }
        }
    }
}

// Focus on a real volume: radius, center and scene framing are set from
// the volume.
#[test]
fn focus_sets_pose() {
    let mut volume = BBox::new();
    volume.extend_pos(&v3(1.0, 2.0, 3.0));
    volume.extend_pos(&v3(5.0, 6.0, 7.0));

    let mut cam = Camera::new();
    cam.focus(&volume).unwrap();

    let size = nalgebra_glm::Vec3::new(4.0f32, 4.0, 4.0);
    let box_size = nalgebra_glm::length(&size);
    let expected_radius = (box_size * 1.5f32).ln();
    assert_eq!(cam.get_data().get_radius(), expected_radius.to_bits());
    assert_eq!(*cam.get_data().get_center(), v3(3.0, 4.0, 5.0));
    assert_eq!(cam.get_data().scene_radius, (box_size / 2f32).to_bits());
    assert_eq!(cam.get_data().scene_center, v3(3.0, 4.0, 5.0));
}

// Focus on a single-point volume fails and leaves the camera untouched.
#[test]
fn focus_single_point_fails() {
    let mut volume = BBox::new();
    volume.extend_pos(&v3(4.0, -2.0, 9.0));

    let mut cam = Camera::new();
    cam.set_radius(11.0f32.to_bits());
    let before = *cam.get_data();

    let err = cam.focus(&volume).unwrap_err();
    assert_eq!(err, ViewerError::InvalidSceneRadius);
    assert_eq!(err.message(), "Scene radius must be positive!!!");
    assert_eq!(*cam.get_data(), before);
}

// The model-view matrix equals the same derivation done with
// nalgebra_glm directly.
#[test]
fn model_matrix_matches_glm() {
    let mut d = CameraData::new();
    d.set_center(&v3(1.0, -2.0, 0.5));
    d.set_radius(0.75f32.to_bits());
    let g = nalgebra_glm::rotation(0.4f32, &nalgebra_glm::Vec3::new(0.0, 1.0, 0.0));
    let axis = nalgebra_glm::mat4_to_mat3(&g);
    d.set_cam_axis(mat3_from_glm(&axis));

    let dir = nalgebra_glm::column(&axis, 2);
    let factor = 0.75f32.exp();
    let cam_pos = v3_to_glm(d.get_center()) + dir * factor;
    let rot = nalgebra_glm::mat3_to_mat4(&nalgebra_glm::transpose(&axis));
    let tmat = nalgebra_glm::translation(&(-cam_pos));
    let expected = rot * tmat;

    assert_eq!(d.get_model_matrix(), mat4_from_glm(&expected));
}

// The projection matrix equals glm's perspective built from the adaptive
// clipping planes.
#[test]
fn projection_matrix_matches_glm() {
    let mut d = CameraData::new();
    d.set_window_size(800, 600);
    d.set_center(&v3(0.0, 0.0, 0.0));
    d.set_radius(1.2f32.to_bits());
    d.set_scene(v3(0.3, -0.4, 0.5), 2.5f32.to_bits()).unwrap();

    let mmat = mat4_to_glm(&d.get_model_matrix());
    let aspect = (800u32 as f32) / (600u32 as f32);
    let z = -(mmat.row(2)
        * nalgebra_glm::Vec4::new(0.3f32, -0.4, 0.5, 1.0))[0];
    let far = z + 2.5f32 * 1.5f32;
    let near = (z - 2.5f32).max(far * 1e-6f32);
    let expected = nalgebra_glm::perspective(aspect, 1.0f32, near, far);

    assert_eq!(d.get_projection_matrix(), mat4_from_glm(&expected));

    let combined = mat4_to_glm(&d.get_projection_matrix()) * mmat;
    assert_eq!(d.get_combined_matrix(), mat4_from_glm(&combined));
}

// The normal matrix: inverse-transpose in the regular case, the matrix
// itself (no infinities, no NaN) in the degenerate case.
#[test]
fn normal_matrix_and_fallback() {
    let mut d = CameraData::new();
    d.set_radius(0.3f32.to_bits());
    let m3 = nalgebra_glm::mat4_to_mat3(&mat4_to_glm(&d.get_model_matrix()));
    let expected = nalgebra_glm::inverse_transpose(m3);
    assert_eq!(d.get_normal_matrix(), mat3_from_glm(&expected));

    // a rank-deficient upper 3x3 block comes back unchanged
    let degenerate = Mat4 { m: [0u32; 16] };
    let n = compute_normal_matrix(&degenerate);
    assert_eq!(n, Mat3 { m: [0u32; 9] });
    for b in n.m.iter() {
        let f = f32::from_bits(*b);
        assert!(!f.is_nan() && !f.is_infinite());
    }
}

// set_scene rejects non-positive radii and keeps the state.
#[test]
fn set_scene_rejects_nonpositive() {
    let mut d = CameraData::new();
    let before = d;
    assert_eq!(
        d.set_scene(v3(1.0, 1.0, 1.0), 0.0f32.to_bits()).unwrap_err(),
        ViewerError::InvalidSceneRadius
    );
    assert_eq!(d, before);
    assert_eq!(
        d.set_scene(v3(1.0, 1.0, 1.0), (-3.0f32).to_bits()).unwrap_err(),
        ViewerError::InvalidSceneRadius
    );
    assert_eq!(d, before);
    assert_eq!(
        d.set_scene(v3(1.0, 1.0, 1.0), f32::NAN.to_bits()).unwrap_err(),
        ViewerError::InvalidSceneRadius
    );
    assert_eq!(d, before);
    assert!(d.set_scene(v3(1.0, 1.0, 1.0), 3.0f32.to_bits()).is_ok());
    assert_eq!(d.scene_radius, 3.0f32.to_bits());
}

// The window size flows into the camera data.
#[test]
fn window_size_update() {
    let mut cam = Camera::new();
    assert_eq!(cam.get_data().get_window_size(), (100, 100));
    cam.update_window_size(1024, 768);
    assert_eq!(cam.get_data().get_window_size(), (1024, 768));
}
