use cad_viewer::args::Arguments;
use cad_viewer::bbox::BBox;
use cad_viewer::linalg::{Mat3, Mat4, Vec3};
use cad_viewer::render::{instance_matrices, material_color, translate_primitive_type};
use cad_viewer::scene::{
    compute_bbox, GPUData, GPUMeshWithMaterial, MaterialData, MeshData, PrimitiveKind, SceneNode,
    ShapeRef, TraversalContext, TraversalData,
};
use cad_viewer::ViewerError;

fn v3(x: f32, y: f32, z: f32) -> Vec3 {
    Vec3 { x: x.to_bits(), y: y.to_bits(), z: z.to_bits() }
}

fn mat4_from_glm(m: &nalgebra_glm::Mat4) -> Mat4 {
    let mut out = [0u32; 16];
    for (i, f) in m.as_slice().iter().enumerate() {
        out[i] = f.to_bits();
    }
    Mat4 { m: out }
}

fn mat4_to_glm(m: &Mat4) -> nalgebra_glm::Mat4 {
    let fl: Vec<f32> = m.m.iter().map(|b| f32::from_bits(*b)).collect();
    nalgebra_glm::Mat4::from_column_slice(&fl)
}

fn mesh(points: Vec<Vec3>) -> MeshData {
    let n = points.len() as u32;
    MeshData {
        positions: points,
        normals: None,
        primitive: PrimitiveKind::Triangles,
        indices: None,
        num_indices: n,
    }
}

fn shape(id: u64, points: Vec<Vec3>) -> ShapeRef {
    ShapeRef {
        id,
        parts: vec![GPUMeshWithMaterial {
            material: MaterialData { diffuse: Some(v3(0.8, 0.1, 0.1)) },
            mesh: mesh(points),
        }],
    }
}

fn leaf(transform: Option<Mat4>, shapes: Vec<ShapeRef>) -> SceneNode {
    SceneNode { transform, shapes, children: Vec::new() }
}

// Dedup: two distinct nodes referencing one shape identity compile to one
// shape and two instances sharing its index.
#[test]
fn dedup_shared_identity() {
    let pts = vec![v3(0.0, 0.0, 0.0), v3(1.0, 0.0, 0.0)];
    let root = SceneNode {
        transform: None,
        shapes: vec![],
        children: vec![leaf(None, vec![shape(7, pts.clone())]), leaf(None, vec![shape(7, pts)])],
    };

    let mut data = GPUData::new();
    data.add_cad_data(root);

    assert_eq!(data.get_shapes().len(), 1);
    assert_eq!(data.get_instances().len(), 2);
    assert_eq!(data.get_instances()[0].shape_index, 0);
    assert_eq!(data.get_instances()[1].shape_index, 0);
}

// Instance count: one instance per shape reference, shared or not.
#[test]
fn instance_count() {
    let pts = vec![v3(0.0, 0.0, 0.0)];
    let root = SceneNode {
        transform: None,
        shapes: vec![shape(1, pts.clone()), shape(2, pts.clone())],
        children: vec![
            leaf(None, vec![shape(1, pts.clone()), shape(3, pts.clone())]),
            leaf(None, vec![shape(2, pts.clone())]),
        ],
    };

    let mut data = GPUData::new();
    data.add_cad_data(root);

    assert_eq!(data.get_instances().len(), 5);
    assert_eq!(data.get_shapes().len(), 3);
    // every index is in range (invariant I1)
    for inst in data.get_instances().iter() {
        assert!(inst.shape_index < data.get_shapes().len());
    }
    // shared identities share indices
    assert_eq!(data.get_instances()[0].shape_index, data.get_instances()[2].shape_index);
    assert_eq!(data.get_instances()[1].shape_index, data.get_instances()[4].shape_index);
}

// Transform composition: a child's instances carry parent * child; a
// child without a transform inherits the parent's transform unchanged.
#[test]
fn transform_composition() {
    let t1 = nalgebra_glm::translation(&nalgebra_glm::Vec3::new(1.0f32, 2.0, 3.0));
    let t2 = nalgebra_glm::rotation(0.5f32, &nalgebra_glm::Vec3::new(0.0, 0.0, 1.0));
    let pts = vec![v3(0.0, 0.0, 0.0)];

    let root = SceneNode {
        transform: Some(mat4_from_glm(&t1)),
        shapes: vec![shape(1, pts.clone())],
        children: vec![
            leaf(Some(mat4_from_glm(&t2)), vec![shape(2, pts.clone())]),
            leaf(None, vec![shape(3, pts.clone())]),
        ],
    };

    let mut data = GPUData::new();
    data.add_cad_data(root);

    assert_eq!(data.get_instances().len(), 3);
    assert_eq!(data.get_instances()[0].transform, mat4_from_glm(&t1));
    assert_eq!(data.get_instances()[1].transform, mat4_from_glm(&(t1 * t2)));
    assert_eq!(data.get_instances()[2].transform, mat4_from_glm(&t1));
}

// A root without a transform starts from the identity.
#[test]
fn root_identity_transform() {
    let root = leaf(None, vec![shape(1, vec![v3(1.0, 1.0, 1.0)])]);
    let mut data = GPUData::new();
    data.add_cad_data(root);
    assert_eq!(
        data.get_instances()[0].transform,
        mat4_from_glm(&nalgebra_glm::Mat4::identity())
    );
}

// The traversal context composes on derive, like the compiled instances.
#[test]
fn traversal_context_derive() {
    let t1 = nalgebra_glm::translation(&nalgebra_glm::Vec3::new(1.0f32, 0.0, 0.0));
    let t2 = nalgebra_glm::translation(&nalgebra_glm::Vec3::new(0.0f32, 2.0, 0.0));
    let root = leaf(Some(mat4_from_glm(&t1)), vec![]);
    let child = leaf(Some(mat4_from_glm(&t2)), vec![]);

    let ctx = TraversalContext::new(&root);
    assert_eq!(ctx.transform, mat4_from_glm(&t1));
    let derived = ctx.derive(&child);
    assert_eq!(derived.transform, mat4_from_glm(&(t1 * t2)));

    let td = TraversalData::new();
    assert_eq!(td.shape_map.len(), 0);
}

// The compiled shape holds the payload of the first occurrence.
#[test]
fn compiled_shape_payload() {
    let pts = vec![v3(9.0, 8.0, 7.0)];
    let root = leaf(None, vec![shape(5, pts)]);
    let mut data = GPUData::new();
    data.add_cad_data(root);
    let parts = &data.get_shapes()[0].parts;
    assert_eq!(parts.len(), 1);
    assert_eq!(parts[0].mesh.positions[0], v3(9.0, 8.0, 7.0));
    assert_eq!(parts[0].material.diffuse, Some(v3(0.8, 0.1, 0.1)));
}

// The bounding walk accumulates every vertex in world space.
#[test]
fn bbox_of_scene() {
    let t1 = nalgebra_glm::translation(&nalgebra_glm::Vec3::new(10.0f32, 0.0, 0.0));
    let root = SceneNode {
        transform: Some(mat4_from_glm(&t1)),
        shapes: vec![shape(1, vec![v3(0.0, 1.0, 2.0), v3(-1.0, 5.0, 0.5)])],
        children: vec![leaf(None, vec![shape(1, vec![v3(2.0, -3.0, 0.0)])])],
    };

    let mut bbox = BBox::new();
    compute_bbox(&root, &mat4_from_glm(&nalgebra_glm::Mat4::identity()), &mut bbox);

    assert!(!bbox.is_empty());
    assert_eq!(*bbox.get_min(), v3(9.0, -3.0, 0.0));
    assert_eq!(*bbox.get_max(), v3(12.0, 5.0, 2.0));
}

// Bounding volume basics: a fresh box is empty, any point fills it, the
// same point twice changes nothing, and center and size are exact.
#[test]
fn bbox_extend() {
    let mut b = BBox::new();
    assert!(b.is_empty());

    b.extend_pos(&v3(1.0, 2.0, 3.0));
    assert!(!b.is_empty());

    let after_first = b;
    b.extend_pos(&v3(1.0, 2.0, 3.0));
    assert_eq!(b, after_first);

    b.extend_pos(&v3(-1.0, 4.0, 0.0));
    assert_eq!(*b.get_min(), v3(-1.0, 2.0, 0.0));
    assert_eq!(*b.get_max(), v3(1.0, 4.0, 3.0));
    assert_eq!(
        b.get_center(),
        v3((-1.0f32 + 1.0) / 2.0, (2.0f32 + 4.0) / 2.0, (0.0f32 + 3.0) / 2.0)
    );
    assert_eq!(b.get_size(), v3(2.0, 2.0, 3.0));
}

#[test]
fn bbox_union() {
    let mut a = BBox::new();
    a.extend_pos(&v3(0.0, 0.0, 0.0));
    a.extend_pos(&v3(1.0, 1.0, 1.0));
    let mut c = BBox::new();
    c.extend_pos(&v3(-5.0, 0.5, 2.0));
    a.extend_bbox(&c);
    assert_eq!(*a.get_min(), v3(-5.0, 0.0, 0.0));
    assert_eq!(*a.get_max(), v3(1.0, 1.0, 2.0));
}

// Per-instance matrices match the direct glm computation.
#[test]
fn instance_matrices_match_glm() {
    let mv = nalgebra_glm::translation(&nalgebra_glm::Vec3::new(0.0f32, 0.0, -4.0));
    let proj = nalgebra_glm::perspective(1.5f32, 1.0, 0.1, 100.0);
    let inst = nalgebra_glm::rotation(0.3f32, &nalgebra_glm::Vec3::new(0.0, 1.0, 0.0));
    let combined = proj * mv;

    let (fc, nm) = instance_matrices(
        &mat4_from_glm(&mv),
        &mat4_from_glm(&combined),
        &mat4_from_glm(&inst),
    );
    assert_eq!(fc, mat4_from_glm(&(combined * inst)));

    let m3 = nalgebra_glm::mat4_to_mat3(&(mv * inst));
    let expected_normal = if nalgebra_glm::determinant(&m3).abs() <= 1e-9 {
        m3
    } else {
        nalgebra_glm::inverse_transpose(m3)
    };
    let mut out = [0u32; 9];
    for (i, f) in expected_normal.as_slice().iter().enumerate() {
        out[i] = f.to_bits();
    }
    assert_eq!(nm, Mat3 { m: out });

    // sanity: a mesh transform must actually change the combined matrix
    assert_ne!(mat4_to_glm(&fc), combined);
}

// The material color falls back to black.
#[test]
fn material_fallback() {
    let m = MaterialData { diffuse: None };
    assert_eq!(material_color(&m), v3(0.0, 0.0, 0.0));
    let m2 = MaterialData { diffuse: Some(v3(0.25, 0.5, 0.75)) };
    assert_eq!(material_color(&m2), v3(0.25, 0.5, 0.75));
}

// The GL primitive modes.
#[test]
fn primitive_modes() {
    assert_eq!(translate_primitive_type(PrimitiveKind::Point), glow::POINTS);
    assert_eq!(translate_primitive_type(PrimitiveKind::Line), glow::LINES);
    assert_eq!(translate_primitive_type(PrimitiveKind::LineLoop), glow::LINE_LOOP);
    assert_eq!(translate_primitive_type(PrimitiveKind::LineStrip), glow::LINE_STRIP);
    assert_eq!(translate_primitive_type(PrimitiveKind::Triangles), glow::TRIANGLES);
    assert_eq!(translate_primitive_type(PrimitiveKind::TriangleFan), glow::TRIANGLE_FAN);
    assert_eq!(translate_primitive_type(PrimitiveKind::TriangleStrip), glow::TRIANGLE_STRIP);
}

// The verified element shuffles agree with nalgebra_glm.
#[test]
fn shuffles_match_glm() {
    let g = nalgebra_glm::mat4_to_mat3(&nalgebra_glm::rotation(
        0.9f32,
        &nalgebra_glm::Vec3::new(0.6, -0.3, 0.2),
    ));
    let mut bits = [0u32; 9];
    for (i, f) in g.as_slice().iter().enumerate() {
        bits[i] = f.to_bits();
    }
    let m = Mat3 { m: bits };

    // transpose
    let t = m.transpose();
    let gt = nalgebra_glm::transpose(&g);
    let mut tbits = [0u32; 9];
    for (i, f) in gt.as_slice().iter().enumerate() {
        tbits[i] = f.to_bits();
    }
    assert_eq!(t, Mat3 { m: tbits });

    // columns
    for j in 0..3 {
        let c = m.column(j);
        let gc = nalgebra_glm::column(&g, j);
        assert_eq!(c, v3(gc.x, gc.y, gc.z));
    }

    // extension to homogeneous coordinates
    let h = m.to_mat4();
    assert_eq!(h, mat4_from_glm(&nalgebra_glm::mat3_to_mat4(&g)));
    assert_eq!(h.to_mat3(), m);

    // translation
    let tr = cad_viewer::linalg::translation(&v3(1.0, -2.0, 3.0));
    assert_eq!(
        tr,
        mat4_from_glm(&nalgebra_glm::translation(&nalgebra_glm::Vec3::new(1.0, -2.0, 3.0)))
    );

    // identities
    assert_eq!(Mat4::identity(), mat4_from_glm(&nalgebra_glm::Mat4::identity()));
    let id3 = nalgebra_glm::Mat3::identity();
    let mut idbits = [0u32; 9];
    for (i, f) in id3.as_slice().iter().enumerate() {
        idbits[i] = f.to_bits();
    }
    assert_eq!(Mat3::identity(), Mat3 { m: idbits });
}

// The default volume is the fresh empty one.
#[test]
fn bbox_default_is_empty() {
    let b: BBox = Default::default();
    assert!(b.is_empty());
    assert_eq!(b, BBox::new());
}

// Argument handling: exactly one argument is the input file.
#[test]
fn arguments() {
    let ok = Arguments::parse_args(&vec!["model.glb".to_string()]).unwrap();
    assert_eq!(ok.input_file, "model.glb");
    assert_eq!(ok.print_to_log(), "Input File: model.glb");

    let none: Vec<String> = Vec::new();
    assert_eq!(Arguments::parse_args(&none).unwrap_err(), ViewerError::InvalidArguments);
    let two = vec!["a".to_string(), "b".to_string()];
    let e = Arguments::parse_args(&two).unwrap_err();
    assert_eq!(e.message(), "Invalid number of program arguments");
}
