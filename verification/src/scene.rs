//! The scene compiler.
//!
//! A scene is a tree of nodes, each with an optional local transform, a list
//! of shape references and an ordered list of children.  Compilation
//! flattens the tree depth-first into
//!
//!  * one `GPUShape` per *distinct* shape identity, in first-encounter
//!    order, carrying the mesh and material payload that the resource layer
//!    realizes exactly once, and
//!  * one `GPUShapeInstance` per shape *reference*, carrying the node's
//!    accumulated world transform and the index of its shape in the
//!    compiled list.
//!
//! The contracts pin both lists down exactly: the instances are the
//! depth-first flattening of the tree with transforms composed by the
//! (named) 4x4 matrix product, and the shape list is the first-occurrence
//! deduplication of the references' identities.

use std::collections::HashMap;

use vstd::prelude::*;

use crate::bbox::{bb_fold, bbox_wf, lemma_bb_fold_concat, lemma_bb_fold_snoc, BBox};
use crate::fbits::F32_ONE;
use crate::linalg::{identity4_bits, m4mul_bits, tfpt_bits, Mat4, Vec3};

verus! {

broadcast use vstd::std_specs::hash::group_hash_axioms;

/// A material reference: either a diffuse RGB color or none (the renderer
/// falls back to black).
#[derive(Clone, Copy, PartialEq, Eq, Debug)]
pub struct MaterialData {
    pub diffuse: Option<Vec3>,
}

/// The primitive topology of a mesh.
#[derive(Clone, Copy, PartialEq, Eq, Debug)]
pub enum PrimitiveKind {
    Point,
    Line,
    LineLoop,
    LineStrip,
    Triangles,
    TriangleFan,
    TriangleStrip,
}

/// Mesh payload: vertex positions, optional vertex normals, topology,
/// optional index data, and the number of indices to draw (the vertex
/// count for non-indexed meshes).
#[derive(Clone, PartialEq, Eq, Debug)]
pub struct MeshData {
    pub positions: Vec<Vec3>,
    pub normals: Option<Vec<Vec3>>,
    pub primitive: PrimitiveKind,
    pub indices: Option<Vec<u32>>,
    pub num_indices: u32,
}

/// One part of a shape: a mesh together with its material.
#[derive(Clone, PartialEq, Eq, Debug)]
pub struct GPUMeshWithMaterial {
    pub material: MaterialData,
    pub mesh: MeshData,
}

/// A reference to a shape: a stable identity (the deduplication key) and
/// the shape's parts.
#[derive(Clone, PartialEq, Eq, Debug)]
pub struct ShapeRef {
    pub id: u64,
    pub parts: Vec<GPUMeshWithMaterial>,
}

/// A node of the scene tree.
#[derive(PartialEq, Eq, Debug)]
pub struct SceneNode {
    pub transform: Option<Mat4>,
    pub shapes: Vec<ShapeRef>,
    pub children: Vec<SceneNode>,
}

/// One compiled shape: the realizable parts of one distinct identity.
#[derive(Clone, PartialEq, Eq, Debug)]
pub struct GPUShape {
    pub parts: Vec<GPUMeshWithMaterial>,
}

/// One placement of a compiled shape: a world transform and the index of
/// the shape in the compiled list.
#[derive(Clone, Copy, PartialEq, Eq, Debug)]
pub struct GPUShapeInstance {
    pub transform: Mat4,
    pub shape_index: usize,
}

// ---------------------------------------------------------------------------
// The depth-first flattening, as a specification.
// ---------------------------------------------------------------------------

/// The world transform of a child entered from accumulated transform `t`.
pub open spec fn child_transform(t: Seq<u32>, c: SceneNode) -> Seq<u32> {
    match c.transform {
        Some(l) => m4mul_bits(t, l@),
        None => t,
    }
}

/// All shape references of the subtree at `n`, in depth-first order, each
/// with the world transform of its node; `t` is the accumulated transform
/// of `n` itself.
pub open spec fn flat_refs(n: SceneNode, t: Seq<u32>) -> Seq<(Seq<u32>, ShapeRef)>
    decreases n,
{
    n.shapes@.map(|i: int, s: ShapeRef| (t, s)) + flat_refs_children(n.children@, t)
}

/// The depth-first flattening of a forest of children under accumulated
/// transform `t` of their parent.
pub open spec fn flat_refs_children(cs: Seq<SceneNode>, t: Seq<u32>) -> Seq<(Seq<u32>, ShapeRef)>
    decreases cs,
{
    if cs.len() == 0 {
        Seq::empty()
    } else {
        flat_refs(cs[0], child_transform(t, cs[0])) + flat_refs_children(cs.drop_first(), t)
    }
}

// ---------------------------------------------------------------------------
// First-occurrence deduplication.
// ---------------------------------------------------------------------------

/// The shape references of `rs` whose identity is new — not in `seen` and
/// not earlier in `rs` — in order of first occurrence.
pub open spec fn dedup_refs(rs: Seq<(Seq<u32>, ShapeRef)>, seen: Seq<u64>) -> Seq<ShapeRef>
    decreases rs.len(),
{
    if rs.len() == 0 {
        Seq::empty()
    } else if seen.contains(rs[0].1.id) {
        dedup_refs(rs.drop_first(), seen)
    } else {
        seq![rs[0].1] + dedup_refs(rs.drop_first(), seen.push(rs[0].1.id))
    }
}

/// The identities of the newly seen references.
pub open spec fn dedup_ids(rs: Seq<(Seq<u32>, ShapeRef)>, seen: Seq<u64>) -> Seq<u64> {
    dedup_refs(rs, seen).map(|i: int, r: ShapeRef| r.id)
}

/// Index of the first occurrence of `v` in `ids`.
pub open spec fn idx_of(ids: Seq<u64>, v: u64) -> int
    decreases ids.len(),
{
    if ids.len() == 0 {
        0
    } else if ids[0] == v {
        0
    } else {
        1 + idx_of(ids.drop_first(), v)
    }
}

/// No identity occurs twice.
pub open spec fn no_dups(ids: Seq<u64>) -> bool {
    forall|i: int, j: int| 0 <= i < j < ids.len() ==> ids[i] != ids[j]
}

// ---------------------------------------------------------------------------
// Facts about deduplication and first-occurrence indices.
// ---------------------------------------------------------------------------

pub proof fn lemma_idx_of_present(ids: Seq<u64>, v: u64)
    requires
        ids.contains(v),
    ensures
        0 <= idx_of(ids, v) < ids.len(),
        ids[idx_of(ids, v)] == v,
    decreases ids.len(),
{
    if ids[0] == v {
    } else {
        assert(ids.drop_first().contains(v)) by {
            let i = choose|i: int| 0 <= i < ids.len() && ids[i] == v;
            assert(ids.drop_first()[i - 1] == v);
        }
        lemma_idx_of_present(ids.drop_first(), v);
    }
}

pub proof fn lemma_idx_of_extend(ids: Seq<u64>, more: Seq<u64>, v: u64)
    requires
        ids.contains(v),
    ensures
        idx_of(ids + more, v) == idx_of(ids, v),
    decreases ids.len(),
{
    assert((ids + more).len() > 0);
    if ids[0] == v {
        assert((ids + more)[0] == v);
    } else {
        assert((ids + more)[0] == ids[0]);
        assert(ids.drop_first().contains(v)) by {
            let i = choose|i: int| 0 <= i < ids.len() && ids[i] == v;
            assert(ids.drop_first()[i - 1] == v);
        }
        lemma_idx_of_extend(ids.drop_first(), more, v);
        assert((ids + more).drop_first() =~= ids.drop_first() + more);
    }
}

pub proof fn lemma_idx_of_absent(ids: Seq<u64>, more: Seq<u64>, v: u64)
    requires
        !ids.contains(v),
    ensures
        idx_of(ids + more, v) == ids.len() + idx_of(more, v),
    decreases ids.len(),
{
    if ids.len() == 0 {
        assert(ids + more =~= more);
    } else {
        assert(ids[0] != v);
        assert((ids + more)[0] == ids[0]);
        assert(!ids.drop_first().contains(v)) by {
            if ids.drop_first().contains(v) {
                let i = choose|i: int| 0 <= i < ids.drop_first().len() && ids.drop_first()[i] == v;
                assert(ids[i + 1] == v);
            }
        }
        lemma_idx_of_absent(ids.drop_first(), more, v);
        assert((ids + more).drop_first() =~= ids.drop_first() + more);
    }
}

/// Deduplication splits over concatenation: the right half is deduplicated
/// against the identities already taken from the left half.
pub proof fn lemma_dedup_concat(a: Seq<(Seq<u32>, ShapeRef)>, b: Seq<(Seq<u32>, ShapeRef)>, seen: Seq<u64>)
    ensures
        dedup_refs(a + b, seen) == dedup_refs(a, seen) + dedup_refs(b, seen + dedup_ids(a, seen)),
    decreases a.len(),
{
    if a.len() == 0 {
        assert(a + b =~= b);
        assert(dedup_ids(a, seen) =~= Seq::<u64>::empty());
        assert(seen + dedup_ids(a, seen) =~= seen);
        assert(dedup_refs(a, seen) + dedup_refs(b, seen) =~= dedup_refs(b, seen));
    } else {
        let h = a[0];
        assert((a + b)[0] == h);
        assert((a + b).len() > 0);
        assert((a + b).drop_first() =~= a.drop_first() + b);
        if seen.contains(h.1.id) {
            lemma_dedup_concat(a.drop_first(), b, seen);
        } else {
            lemma_dedup_concat(a.drop_first(), b, seen.push(h.1.id));
            assert(dedup_refs(a, seen) == seq![h.1] + dedup_refs(a.drop_first(), seen.push(h.1.id)));
            assert(dedup_ids(a, seen) =~= seq![h.1.id] + dedup_ids(a.drop_first(), seen.push(h.1.id)));
            assert(seen.push(h.1.id) + dedup_ids(a.drop_first(), seen.push(h.1.id))
                =~= seen + dedup_ids(a, seen));
            assert(dedup_refs(a, seen) + dedup_refs(b, seen + dedup_ids(a, seen))
                =~= seq![h.1] + (dedup_refs(a.drop_first(), seen.push(h.1.id))
                    + dedup_refs(b, seen.push(h.1.id) + dedup_ids(a.drop_first(), seen.push(h.1.id)))));
        }
    }
}

/// Every identity of `rs` occurs in `seen` extended by the newly taken
/// identities, and the extended list again has no duplicates.
pub proof fn lemma_dedup_covers(rs: Seq<(Seq<u32>, ShapeRef)>, seen: Seq<u64>)
    requires
        no_dups(seen),
    ensures
        no_dups(seen + dedup_ids(rs, seen)),
        forall|k: int|
            0 <= k < rs.len() ==> (seen + dedup_ids(rs, seen)).contains(#[trigger] rs[k].1.id),
    decreases rs.len(),
{
    if rs.len() == 0 {
        assert(seen + dedup_ids(rs, seen) =~= seen);
    } else {
        let h = rs[0];
        if seen.contains(h.1.id) {
            lemma_dedup_covers(rs.drop_first(), seen);
            assert forall|k: int| 0 <= k < rs.len() implies (seen + dedup_ids(rs, seen)).contains(
                #[trigger] rs[k].1.id,
            ) by {
                if k == 0 {
                    let i = choose|i: int| 0 <= i < seen.len() && seen[i] == h.1.id;
                    assert((seen + dedup_ids(rs, seen))[i] == h.1.id);
                } else {
                    assert(rs.drop_first()[k - 1] == rs[k]);
                    let ext = seen + dedup_ids(rs.drop_first(), seen);
                    assert(ext.contains(rs[k].1.id));
                    let i = choose|i: int| 0 <= i < ext.len() && ext[i] == rs[k].1.id;
                    assert(dedup_ids(rs, seen) =~= dedup_ids(rs.drop_first(), seen));
                    assert((seen + dedup_ids(rs, seen))[i] == rs[k].1.id);
                }
            }
        } else {
            let seen1 = seen.push(h.1.id);
            assert(no_dups(seen1)) by {
                assert(forall|i: int| 0 <= i < seen.len() ==> seen1[i] == seen[i]);
            }
            lemma_dedup_covers(rs.drop_first(), seen1);
            assert(seen1 + dedup_ids(rs.drop_first(), seen1) =~= seen + dedup_ids(rs, seen)) by {
                assert(dedup_ids(rs, seen) =~= seq![h.1.id] + dedup_ids(rs.drop_first(), seen1));
            }
            assert forall|k: int| 0 <= k < rs.len() implies (seen + dedup_ids(rs, seen)).contains(
                #[trigger] rs[k].1.id,
            ) by {
                if k == 0 {
                    assert((seen1 + dedup_ids(rs.drop_first(), seen1))[seen.len() as int] == h.1.id);
                } else {
                    assert(rs.drop_first()[k - 1] == rs[k]);
                }
            }
        }
    }
}

/// Cutting a forest one child later splits off that child's flattening.
pub proof fn lemma_flat_children_snoc(cs: Seq<SceneNode>, t: Seq<u32>, m: int)
    requires
        0 <= m < cs.len(),
    ensures
        flat_refs_children(cs.take(m + 1), t) == flat_refs_children(cs.take(m), t) + flat_refs(
            cs[m],
            child_transform(t, cs[m]),
        ),
    decreases m,
{
    if m == 0 {
        let c = cs.take(1);
        assert(c.len() == 1);
        assert(c[0] == cs[0]);
        let e = c.drop_first();
        assert(e =~= Seq::<SceneNode>::empty());
        assert(flat_refs_children(c, t) == flat_refs(c[0], child_transform(t, c[0]))
            + flat_refs_children(e, t));
        assert(flat_refs_children(e, t).len() == 0);
        assert(flat_refs_children(cs.take(0), t).len() == 0);
        assert(flat_refs_children(cs.take(1), t) =~= flat_refs_children(cs.take(0), t) + flat_refs(
            cs[0],
            child_transform(t, cs[0]),
        ));
    } else {
        lemma_flat_children_snoc(cs.drop_first(), t, m - 1);
        let a = cs.take(m + 1);
        let b = cs.take(m);
        assert(a[0] == cs[0] && b[0] == cs[0]);
        assert(a.drop_first() =~= cs.drop_first().take(m));
        assert(b.drop_first() =~= cs.drop_first().take(m - 1));
        assert(cs.drop_first()[m - 1] == cs[m]);
        assert(flat_refs_children(a, t) == flat_refs(cs[0], child_transform(t, cs[0]))
            + flat_refs_children(cs.drop_first().take(m), t));
        assert(flat_refs_children(b, t) + flat_refs(cs[m], child_transform(t, cs[m])) =~= flat_refs(
            cs[0],
            child_transform(t, cs[0]),
        ) + (flat_refs_children(cs.drop_first().take(m - 1), t) + flat_refs(
            cs[m],
            child_transform(t, cs[m]),
        )));
    }
}

// ---------------------------------------------------------------------------
// The compiled data and the traversal.
// ---------------------------------------------------------------------------

/// All render-ready data produced by compilation.
pub struct GPUData {
    pub shapes: Vec<GPUShape>,
    pub instances: Vec<GPUShapeInstance>,
}

/// Contextual data used while traversing the node tree: the accumulated
/// transform.
#[derive(Clone, Copy)]
pub struct TraversalContext {
    pub transform: Mat4,
}

/// The per-compilation identity map: shape identity to index of its
/// compiled shape.
pub struct TraversalData {
    pub shape_map: HashMap<u64, usize>,
}

/// The accumulated transform the traversal starts from: the root's own
/// transform, or the identity.
pub open spec fn root_transform_bits(root: SceneNode) -> Seq<u32> {
    match root.transform {
        Some(t) => t@,
        None => identity4_bits(),
    }
}

impl TraversalContext {
    /// Returns the traversal context for the root node.
    pub fn new(root_node: &SceneNode) -> (r: TraversalContext)
        ensures
            r.transform@ == root_transform_bits(*root_node),
    {
        let transform: Mat4 = match &root_node.transform {
            Some(t) => *t,
            None => Mat4::identity(),
        };
        TraversalContext { transform }
    }

    /// Returns the context after entering `node`: the accumulated transform
    /// composed with the node's local transform, if it carries one.
    pub fn derive(&self, node: &SceneNode) -> (r: TraversalContext)
        ensures
            r.transform@ == child_transform(self.transform@, *node),
    {
        match &node.transform {
            Some(t) => TraversalContext { transform: crate::linalg::mat4_mul(&self.transform, t) },
            None => TraversalContext { transform: self.transform },
        }
    }
}

impl TraversalData {
    /// Returns an empty identity map.
    pub fn new() -> (r: TraversalData)
        ensures
            r.shape_map@ == Map::<u64, usize>::empty(),
    {
        TraversalData { shape_map: HashMap::new() }
    }
}

/// The identity map matches the identities `seen` so far: it holds exactly
/// those identities, each mapped to the index of its compiled shape, and
/// the compiled list holds `base` earlier shapes plus one per seen
/// identity.
pub open spec fn td_inv(td: TraversalData, seen: Seq<u64>, base: int, shapes_len: int) -> bool {
    &&& no_dups(seen)
    &&& 0 <= base
    &&& shapes_len == base + seen.len()
    &&& forall|id: u64| #[trigger] td.shape_map@.contains_key(id) == seen.contains(id)
    &&& forall|id: u64|
        seen.contains(id) ==> #[trigger] td.shape_map@[id] as int == base + idx_of(seen, id)
}

/// The compiled payload of one shape reference.
pub open spec fn shape_payload(r: ShapeRef) -> GPUShape {
    GPUShape { parts: r.parts }
}

impl GPUData {
    /// Creates a new empty data set.
    pub fn new() -> (r: GPUData)
        ensures
            r.shapes@ == Seq::<GPUShape>::empty(),
            r.instances@ == Seq::<GPUShapeInstance>::empty(),
    {
        GPUData { shapes: Vec::new(), instances: Vec::new() }
    }

    /// Returns a reference onto the compiled shapes.
    pub fn get_shapes(&self) -> (r: &Vec<GPUShape>)
        ensures
            r == self.shapes,
    {
        &self.shapes
    }

    /// Returns a reference onto the shape instances.
    pub fn get_instances(&self) -> (r: &Vec<GPUShapeInstance>)
        ensures
            r == self.instances,
    {
        &self.instances
    }

    /// Resolves the compiled-shape index for one shape reference: an
    /// identity seen before reuses its index; a new identity appends its
    /// payload to the compiled list and records the index before
    /// returning.
    fn get_shape_index(
        &mut self,
        shape: ShapeRef,
        td: &mut TraversalData,
        Ghost(seen): Ghost<Seq<u64>>,
        Ghost(base): Ghost<int>,
    ) -> (r: (usize, Ghost<Seq<u64>>))
        requires
            td_inv(*old(td), seen, base, old(self).shapes@.len() as int),
        ensures
            ({
                let news = if seen.contains(shape.id) {
                    seen
                } else {
                    seen.push(shape.id)
                };
                &&& r.1@ == news
                &&& td_inv(*final(td), news, base, final(self).shapes@.len() as int)
                &&& r.0 as int == base + idx_of(news, shape.id)
                &&& news.contains(shape.id)
                &&& seen.contains(shape.id) ==> final(self).shapes@ == old(self).shapes@
                &&& !seen.contains(shape.id) ==> final(self).shapes@ == old(self).shapes@.push(
                    shape_payload(shape),
                )
                &&& final(self).instances@ == old(self).instances@
            }),
    {
        let ghost shape0 = shape;
        let ShapeRef { id, parts } = shape;

        match td.shape_map.get(&id) {
            Some(index) => {
                proof {
                    assert(seen.contains(id));
                }
                return (*index, Ghost(seen));
            },
            None => {},
        }
        proof {
            assert(!seen.contains(id));
        }

        let index = self.shapes.len();
        self.shapes.push(GPUShape { parts });
        td.shape_map.insert(id, index);

        proof {
            let news = seen.push(id);
            assert(news =~= seen + seq![id]);
            lemma_idx_of_absent(seen, seq![id], id);
            assert(idx_of(news, id) == seen.len());
            assert(no_dups(news)) by {
                assert(forall|i: int| 0 <= i < seen.len() ==> news[i] == seen[i]);
            }
            assert forall|id2: u64| news.contains(id2) implies #[trigger] td.shape_map@[id2] as int
                == base + idx_of(news, id2) by {
                if id2 == id {
                } else {
                    assert(seen.contains(id2)) by {
                        let i = choose|i: int| 0 <= i < news.len() && news[i] == id2;
                        assert(i < seen.len());
                    }
                    lemma_idx_of_extend(seen, seq![id], id2);
                }
            }
            assert forall|id2: u64| #[trigger] td.shape_map@.contains_key(id2) == news.contains(
                id2,
            ) by {
                if id2 == id {
                    assert(news[seen.len() as int] == id);
                } else {
                    if news.contains(id2) {
                        let i = choose|i: int| 0 <= i < news.len() && news[i] == id2;
                        assert(i < seen.len());
                        assert(seen[i] == id2);
                    }
                    if seen.contains(id2) {
                        let i = choose|i: int| 0 <= i < seen.len() && seen[i] == id2;
                        assert(news[i] == id2);
                    }
                }
            }
        }
        (index, Ghost(seen.push(id)))
    }

    /// Traverses the subtree at `node` (whose accumulated transform is in
    /// `ctx`), appending one instance per shape reference and one compiled
    /// shape per identity not seen before.
    #[verifier::loop_isolation(false)]
    fn traverse(
        &mut self,
        node: SceneNode,
        ctx: &TraversalContext,
        td: &mut TraversalData,
        Ghost(seen): Ghost<Seq<u64>>,
        Ghost(base): Ghost<int>,
    ) -> (res: Ghost<Seq<u64>>)
        requires
            td_inv(*old(td), seen, base, old(self).shapes@.len() as int),
        ensures
            ({
                let f = flat_refs(node, ctx.transform@);
                let seen2 = seen + dedup_ids(f, seen);
                &&& res@ == seen2
                &&& td_inv(*final(td), seen2, base, final(self).shapes@.len() as int)
                &&& final(self).shapes@ == old(self).shapes@ + dedup_refs(f, seen).map(
                    |i: int, r: ShapeRef| shape_payload(r),
                )
                &&& final(self).instances@.len() == old(self).instances@.len() + f.len()
                &&& forall|i: int|
                    0 <= i < old(self).instances@.len() ==> final(self).instances@[i] == old(
                        self,
                    ).instances@[i]
                &&& forall|k: int|
                    0 <= k < f.len() ==> {
                        let inst = #[trigger] final(self).instances@[old(
                            self,
                        ).instances@.len() + k];
                        &&& inst.transform@ == f[k].0
                        &&& inst.shape_index as int == base + idx_of(seen2, f[k].1.id)
                        &&& seen2.contains(f[k].1.id)
                        &&& (inst.shape_index as int) < final(self).shapes@.len()
                    }
            }),
        decreases node,
    {
        let ghost node0 = node;
        let ghost t = ctx.transform@;
        let ghost f_own = node0.shapes@.map(|i: int, s: ShapeRef| (t, s));
        let ghost shapes_entry = self.shapes@;
        let ghost insts_entry = self.instances@;

        let SceneNode { transform: _, shapes, children } = node;
        let mut shapes = shapes;
        let mut children = children;

        let ghost mut cur_seen = seen;
        let ghost mut f_done: Seq<(Seq<u32>, ShapeRef)> = Seq::empty();

        proof {
            assert(f_done =~= f_own.take(0));
            assert(cur_seen =~= seen + dedup_ids(f_done, seen));
            assert(self.shapes@ =~= shapes_entry + dedup_refs(f_done, seen).map(
                |i: int, r: ShapeRef| shape_payload(r),
            ));
        }

        let ghost n_own = node0.shapes@.len() as int;
        while shapes.len() > 0
            invariant
                td_inv(*td, cur_seen, base, self.shapes@.len() as int),
                shapes@.len() <= n_own,
                shapes@ =~= node0.shapes@.subrange(n_own - shapes@.len(), n_own),
                f_done == f_own.take(n_own - shapes@.len()),
                cur_seen == seen + dedup_ids(f_done, seen),
                self.shapes@ == shapes_entry + dedup_refs(f_done, seen).map(
                    |i: int, r: ShapeRef| shape_payload(r),
                ),
                self.instances@.len() == insts_entry.len() + f_done.len(),
                forall|i: int|
                    0 <= i < insts_entry.len() ==> self.instances@[i] == insts_entry[i],
                forall|k: int|
                    0 <= k < f_done.len() ==> {
                        let inst = #[trigger] self.instances@[insts_entry.len() + k];
                        &&& inst.transform@ == f_done[k].0
                        &&& inst.shape_index as int == base + idx_of(cur_seen, f_done[k].1.id)
                        &&& cur_seen.contains(f_done[k].1.id)
                    },
            decreases shapes@.len(),
        {
            let ghost j = n_own - shapes@.len();
            let s = shapes.remove(0);
            let ghost s0 = s;
            proof {
                assert(s0 == node0.shapes@[j]);
                assert(f_own[j] == (t, s0));
            }

            let (index, g) = self.get_shape_index(s, td, Ghost(cur_seen), Ghost(base));
            self.instances.push(GPUShapeInstance { transform: ctx.transform, shape_index: index });

            proof {
                let prev_seen = cur_seen;
                let prev_done = f_done;
                cur_seen = g@;
                f_done = f_own.take(j + 1);
                assert(f_done =~= prev_done + seq![(t, s0)]) by {
                    assert(prev_done =~= f_own.take(j));
                }
                lemma_dedup_concat(prev_done, seq![(t, s0)], seen);
                let delta = dedup_ids(seq![(t, s0)], prev_seen);
                let one = seq![(t, s0)];
                assert(one.len() == 1 && one[0] == (t, s0) && one[0].1 == s0);
                assert(one.drop_first() =~= Seq::<(Seq<u32>, ShapeRef)>::empty());
                assert(dedup_refs(one.drop_first(), prev_seen).len() == 0);
                assert(dedup_refs(one.drop_first(), prev_seen.push(s0.id)).len() == 0);
                if prev_seen.contains(s0.id) {
                    assert(dedup_refs(one, prev_seen) == dedup_refs(one.drop_first(), prev_seen));
                    assert(dedup_refs(seq![(t, s0)], prev_seen) =~= Seq::<ShapeRef>::empty());
                    assert(delta =~= Seq::<u64>::empty());
                    assert(cur_seen =~= prev_seen + delta);
                    assert(cur_seen =~= prev_seen);
                } else {
                    assert(dedup_refs(one, prev_seen) == seq![one[0].1] + dedup_refs(
                        one.drop_first(),
                        prev_seen.push(s0.id),
                    ));
                    assert(dedup_refs(seq![(t, s0)], prev_seen) =~= seq![s0]);
                    assert(delta =~= seq![s0.id]);
                    assert(cur_seen =~= prev_seen + delta);
                }
                assert(cur_seen =~= seen + dedup_ids(f_done, seen)) by {
                    assert(dedup_ids(f_done, seen) =~= dedup_ids(prev_done, seen) + dedup_ids(
                        seq![(t, s0)],
                        prev_seen,
                    )) by {
                        assert(dedup_refs(f_done, seen) == dedup_refs(prev_done, seen)
                            + dedup_refs(seq![(t, s0)], prev_seen));
                        assert(dedup_ids(f_done, seen) =~= dedup_refs(prev_done, seen).map(
                            |i: int, r: ShapeRef| r.id,
                        ) + dedup_refs(seq![(t, s0)], prev_seen).map(|i: int, r: ShapeRef| r.id));
                    }
                }
                assert(self.shapes@ =~= shapes_entry + dedup_refs(f_done, seen).map(
                    |i: int, r: ShapeRef| shape_payload(r),
                ));
                assert forall|k: int| 0 <= k < f_done.len() implies {
                    let inst = #[trigger] self.instances@[insts_entry.len() + k];
                    &&& inst.transform@ == f_done[k].0
                    &&& inst.shape_index as int == base + idx_of(cur_seen, f_done[k].1.id)
                    &&& cur_seen.contains(f_done[k].1.id)
                } by {
                    if k < prev_done.len() {
                        assert(f_done[k] == prev_done[k]);
                        assert(self.instances@[insts_entry.len() + k] == self.instances@.drop_last()[
                            insts_entry.len() + k
                        ]);
                        if prev_seen.contains(s0.id) {
                        } else {
                            lemma_idx_of_extend(prev_seen, seq![s0.id], prev_done[k].1.id);
                            assert(cur_seen =~= prev_seen + seq![s0.id]);
                            let i = choose|i: int|
                                0 <= i < prev_seen.len() && prev_seen[i] == prev_done[k].1.id;
                            assert(cur_seen[i] == prev_done[k].1.id);
                        }
                    } else {
                        assert(k == prev_done.len());
                        assert(f_done[k] == (t, s0));
                        assert(self.instances@[insts_entry.len() + k].shape_index == index);
                        if prev_seen.contains(s0.id) {
                        } else {
                            assert(cur_seen =~= prev_seen.push(s0.id));
                        }
                    }
                }
            }
        }

        proof {
            assert(f_done =~= f_own);
        }

        // traverse over the children of the current node
        let ghost cs0 = node0.children@;
        let ghost n_ch = cs0.len() as int;
        while children.len() > 0
            invariant
                td_inv(*td, cur_seen, base, self.shapes@.len() as int),
                children@.len() <= n_ch,
                children@ =~= cs0.subrange(n_ch - children@.len(), n_ch),
                f_done == f_own + flat_refs_children(cs0.take(n_ch - children@.len()), t),
                cur_seen == seen + dedup_ids(f_done, seen),
                self.shapes@ == shapes_entry + dedup_refs(f_done, seen).map(
                    |i: int, r: ShapeRef| shape_payload(r),
                ),
                self.instances@.len() == insts_entry.len() + f_done.len(),
                forall|i: int|
                    0 <= i < insts_entry.len() ==> self.instances@[i] == insts_entry[i],
                forall|k: int|
                    0 <= k < f_done.len() ==> {
                        let inst = #[trigger] self.instances@[insts_entry.len() + k];
                        &&& inst.transform@ == f_done[k].0
                        &&& inst.shape_index as int == base + idx_of(cur_seen, f_done[k].1.id)
                        &&& cur_seen.contains(f_done[k].1.id)
                    },
            decreases children@.len(),
        {
            let ghost m = n_ch - children@.len();
            let child = children.remove(0);
            let ghost child0 = child;
            proof {
                assert(child0 == cs0[m]);
                assert(decreases_to!(node0 => child0));
            }

            // compute new transform
            let child_ctx = ctx.derive(&child);
            let ghost f_child = flat_refs(child0, child_ctx.transform@);

            let ghost prev_seen = cur_seen;
            let ghost prev_done = f_done;
            let ghost insts_before = self.instances@;

            let g = self.traverse(child, &child_ctx, td, Ghost(cur_seen), Ghost(base));

            proof {
                cur_seen = g@;
                f_done = prev_done + f_child;

                lemma_flat_children_snoc(cs0, t, m);
                assert(f_done =~= f_own + flat_refs_children(cs0.take(m + 1), t)) by {
                    assert(prev_done == f_own + flat_refs_children(cs0.take(m), t));
                    assert(child_transform(t, cs0[m]) == child_ctx.transform@);
                }

                lemma_dedup_concat(prev_done, f_child, seen);
                let delta = dedup_ids(f_child, prev_seen);
                assert(cur_seen =~= seen + dedup_ids(f_done, seen)) by {
                    assert(dedup_refs(f_done, seen) == dedup_refs(prev_done, seen) + dedup_refs(
                        f_child,
                        prev_seen,
                    ));
                    assert(dedup_ids(f_done, seen) =~= dedup_ids(prev_done, seen) + delta);
                    assert(cur_seen =~= prev_seen + delta);
                }
                assert(self.shapes@ =~= shapes_entry + dedup_refs(f_done, seen).map(
                    |i: int, r: ShapeRef| shape_payload(r),
                )) by {
                    assert(dedup_refs(f_done, seen) == dedup_refs(prev_done, seen) + dedup_refs(
                        f_child,
                        prev_seen,
                    ));
                    assert(dedup_refs(f_done, seen).map(|i: int, r: ShapeRef| shape_payload(r))
                        =~= dedup_refs(prev_done, seen).map(|i: int, r: ShapeRef| shape_payload(r))
                        + dedup_refs(f_child, prev_seen).map(|i: int, r: ShapeRef| shape_payload(r)));
                }
                assert forall|k: int| 0 <= k < f_done.len() implies {
                    let inst = #[trigger] self.instances@[insts_entry.len() + k];
                    &&& inst.transform@ == f_done[k].0
                    &&& inst.shape_index as int == base + idx_of(cur_seen, f_done[k].1.id)
                    &&& cur_seen.contains(f_done[k].1.id)
                } by {
                    if k < prev_done.len() {
                        assert(f_done[k] == prev_done[k]);
                        assert(self.instances@[insts_entry.len() + k] == insts_before[
                            insts_entry.len() + k
                        ]);
                        assert(prev_seen.contains(prev_done[k].1.id));
                        lemma_idx_of_extend(prev_seen, delta, prev_done[k].1.id);
                        assert(cur_seen =~= prev_seen + delta);
                        let i = choose|i: int|
                            0 <= i < prev_seen.len() && prev_seen[i] == prev_done[k].1.id;
                        assert(cur_seen[i] == prev_done[k].1.id);
                    } else {
                        let k2 = k - prev_done.len();
                        assert(f_done[k] == f_child[k2]);
                        assert(self.instances@[insts_before.len() + k2] == self.instances@[
                            insts_entry.len() + k
                        ]);
                    }
                }
            }
        }

        proof {
            assert(cs0.take(n_ch) =~= cs0);
            assert(f_done =~= flat_refs(node0, t));
            assert forall|k: int| 0 <= k < f_done.len() implies base + idx_of(
                cur_seen,
                f_done[k].1.id,
            ) < self.shapes@.len() by {
                let inst = self.instances@[insts_entry.len() + k];
                assert(cur_seen.contains(f_done[k].1.id));
                lemma_idx_of_present(cur_seen, f_done[k].1.id);
            }
        }

        Ghost(cur_seen)
    }

    /// Adds the given scene to the data set: a depth-first compilation of
    /// the whole tree, deduplicated by shape identity.
    ///
    /// With `f` the depth-first list of the scene's shape references (each
    /// paired with its world transform), the call appends one instance per
    /// reference, in order, and one compiled shape per distinct identity,
    /// in first-encounter order; every appended instance carries its
    /// reference's world transform and the index of its identity's unique
    /// compiled shape.
    pub fn add_cad_data(&mut self, root: SceneNode)
        ensures
            ({
                let f = flat_refs(root, root_transform_bits(root));
                let ids = dedup_ids(f, Seq::empty());
                &&& final(self).shapes@ == old(self).shapes@ + dedup_refs(f, Seq::empty()).map(
                    |i: int, r: ShapeRef| shape_payload(r),
                )
                &&& final(self).instances@.len() == old(self).instances@.len() + f.len()
                &&& forall|i: int|
                    0 <= i < old(self).instances@.len() ==> final(self).instances@[i] == old(
                        self,
                    ).instances@[i]
                &&& forall|k: int|
                    0 <= k < f.len() ==> {
                        let inst = #[trigger] final(self).instances@[old(
                            self,
                        ).instances@.len() + k];
                        &&& inst.transform@ == f[k].0
                        &&& inst.shape_index as int == old(self).shapes@.len() as int + idx_of(
                            ids,
                            f[k].1.id,
                        )
                        &&& ids.contains(f[k].1.id)
                        &&& (inst.shape_index as int) < final(self).shapes@.len()
                    }
            }),
            gpu_wf(*old(self)) ==> gpu_wf(*final(self)),
    {
        let traversal_context = TraversalContext::new(&root);
        let mut traversal_data = TraversalData::new();
        let ghost base = self.shapes@.len() as int;
        let ghost f = flat_refs(root, root_transform_bits(root));

        let _ = self.traverse(
            root,
            &traversal_context,
            &mut traversal_data,
            Ghost(Seq::empty()),
            Ghost(base),
        );

        proof {
            let seen2 = Seq::<u64>::empty() + dedup_ids(f, Seq::empty());
            assert(seen2 =~= dedup_ids(f, Seq::empty()));
            assert forall|k: int| 0 <= k < f.len() implies {
                let inst = #[trigger] self.instances@[old(self).instances@.len() + k];
                inst.shape_index as int == base + idx_of(dedup_ids(f, Seq::empty()), f[k].1.id)
            } by {
                assert(idx_of(seen2, f[k].1.id) == idx_of(dedup_ids(f, Seq::empty()), f[k].1.id));
            }
            if gpu_wf(*old(self)) {
                assert forall|i: int| 0 <= i < self.instances@.len() implies (
                #[trigger] self.instances@[i].shape_index as int) < self.shapes@.len() by {
                    if i < old(self).instances@.len() {
                        assert(self.instances@[i] == old(self).instances@[i]);
                        assert((old(self).instances@[i].shape_index as int)
                            < old(self).shapes@.len());
                    } else {
                        let k = i - old(self).instances@.len();
                        assert((self.instances@[old(self).instances@.len() + k].shape_index as int)
                            < self.shapes@.len());
                    }
                }
            }
        }
    }
}

// ---------------------------------------------------------------------------
// The bounding computation: the same walk, accumulating world-space
// vertex positions.
// ---------------------------------------------------------------------------

/// A position carried to world space: transformed by `m` with homogeneous
/// coordinate one, first three components kept.
pub open spec fn tf_point(m: Seq<u32>, p: Vec3) -> Vec3 {
    let s = tfpt_bits(m, p@, F32_ONE);
    Vec3 { x: s[0], y: s[1], z: s[2] }
}

/// The world-space positions of one mesh.
pub open spec fn part_points(ps: Seq<Vec3>, m: Seq<u32>) -> Seq<Vec3> {
    ps.map(|i: int, p: Vec3| tf_point(m, p))
}

/// The world-space positions of a list of parts, in order.
pub open spec fn parts_points(parts: Seq<GPUMeshWithMaterial>, m: Seq<u32>) -> Seq<Vec3>
    decreases parts.len(),
{
    if parts.len() == 0 {
        Seq::empty()
    } else {
        part_points(parts[0].mesh.positions@, m) + parts_points(parts.drop_first(), m)
    }
}

/// The world-space positions of a list of shape references, in order.
pub open spec fn shapes_points(ss: Seq<ShapeRef>, m: Seq<u32>) -> Seq<Vec3>
    decreases ss.len(),
{
    if ss.len() == 0 {
        Seq::empty()
    } else {
        parts_points(ss[0].parts@, m) + shapes_points(ss.drop_first(), m)
    }
}

/// All world-space positions of the subtree at `n`, depth-first; `t` is
/// the accumulated transform of `n`'s parent (the node composes its own
/// local transform first, as the bounding walk enters it).
pub open spec fn world_points(n: SceneNode, t: Seq<u32>) -> Seq<Vec3>
    decreases n,
{
    let te = child_transform(t, n);
    shapes_points(n.shapes@, te) + forest_points(n.children@, te)
}

/// The world-space positions of a forest of children, depth-first.
pub open spec fn forest_points(cs: Seq<SceneNode>, te: Seq<u32>) -> Seq<Vec3>
    decreases cs,
{
    if cs.len() == 0 {
        Seq::empty()
    } else {
        world_points(cs[0], te) + forest_points(cs.drop_first(), te)
    }
}

pub proof fn lemma_parts_points_snoc(parts: Seq<GPUMeshWithMaterial>, m: Seq<u32>, j: int)
    requires
        0 <= j < parts.len(),
    ensures
        parts_points(parts.take(j + 1), m) == parts_points(parts.take(j), m) + part_points(
            parts[j].mesh.positions@,
            m,
        ),
    decreases j,
{
    if j == 0 {
        let c = parts.take(1);
        assert(c.len() == 1 && c[0] == parts[0]);
        assert(c.drop_first() =~= Seq::<GPUMeshWithMaterial>::empty());
        assert(parts_points(c.drop_first(), m).len() == 0);
        assert(parts_points(parts.take(0), m).len() == 0);
        assert(parts_points(c, m) =~= parts_points(parts.take(0), m) + part_points(
            parts[0].mesh.positions@,
            m,
        ));
    } else {
        lemma_parts_points_snoc(parts.drop_first(), m, j - 1);
        let a = parts.take(j + 1);
        let b = parts.take(j);
        assert(a.len() > 0 && b.len() > 0);
        assert(a[0] == parts[0] && b[0] == parts[0]);
        assert(a.drop_first() =~= parts.drop_first().take(j));
        assert(b.drop_first() =~= parts.drop_first().take(j - 1));
        assert(parts.drop_first()[j - 1] == parts[j]);
        assert(parts_points(b, m) + part_points(parts[j].mesh.positions@, m) =~= part_points(
            parts[0].mesh.positions@,
            m,
        ) + (parts_points(parts.drop_first().take(j - 1), m) + part_points(
            parts[j].mesh.positions@,
            m,
        )));
    }
}

pub proof fn lemma_shapes_points_snoc(ss: Seq<ShapeRef>, m: Seq<u32>, j: int)
    requires
        0 <= j < ss.len(),
    ensures
        shapes_points(ss.take(j + 1), m) == shapes_points(ss.take(j), m) + parts_points(
            ss[j].parts@,
            m,
        ),
    decreases j,
{
    if j == 0 {
        let c = ss.take(1);
        assert(c.len() == 1 && c[0] == ss[0]);
        assert(c.drop_first() =~= Seq::<ShapeRef>::empty());
        assert(shapes_points(c.drop_first(), m).len() == 0);
        assert(shapes_points(ss.take(0), m).len() == 0);
        assert(shapes_points(c, m) =~= shapes_points(ss.take(0), m) + parts_points(
            ss[0].parts@,
            m,
        ));
    } else {
        lemma_shapes_points_snoc(ss.drop_first(), m, j - 1);
        let a = ss.take(j + 1);
        let b = ss.take(j);
        assert(a.len() > 0 && b.len() > 0);
        assert(a[0] == ss[0] && b[0] == ss[0]);
        assert(a.drop_first() =~= ss.drop_first().take(j));
        assert(b.drop_first() =~= ss.drop_first().take(j - 1));
        assert(ss.drop_first()[j - 1] == ss[j]);
        assert(shapes_points(b, m) + parts_points(ss[j].parts@, m) =~= parts_points(
            ss[0].parts@,
            m,
        ) + (shapes_points(ss.drop_first().take(j - 1), m) + parts_points(ss[j].parts@, m)));
    }
}

pub proof fn lemma_forest_points_snoc(cs: Seq<SceneNode>, te: Seq<u32>, j: int)
    requires
        0 <= j < cs.len(),
    ensures
        forest_points(cs.take(j + 1), te) == forest_points(cs.take(j), te) + world_points(
            cs[j],
            te,
        ),
    decreases j,
{
    if j == 0 {
        let c = cs.take(1);
        assert(c.len() == 1 && c[0] == cs[0]);
        assert(c.drop_first() =~= Seq::<SceneNode>::empty());
        assert(forest_points(c.drop_first(), te).len() == 0);
        assert(forest_points(cs.take(0), te).len() == 0);
        assert(forest_points(c, te) =~= forest_points(cs.take(0), te) + world_points(cs[0], te));
    } else {
        lemma_forest_points_snoc(cs.drop_first(), te, j - 1);
        let a = cs.take(j + 1);
        let b = cs.take(j);
        assert(a.len() > 0 && b.len() > 0);
        assert(a[0] == cs[0] && b[0] == cs[0]);
        assert(a.drop_first() =~= cs.drop_first().take(j));
        assert(b.drop_first() =~= cs.drop_first().take(j - 1));
        assert(cs.drop_first()[j - 1] == cs[j]);
        assert(forest_points(b, te) + world_points(cs[j], te) =~= world_points(cs[0], te) + (
        forest_points(cs.drop_first().take(j - 1), te) + world_points(cs[j], te)));
    }
}

/// Computes the bounding volume of the subtree at `node` under the given
/// accumulated transform: the box is extended with every vertex position,
/// carried to world space, in depth-first order.
#[verifier::loop_isolation(false)]
pub fn compute_bbox(node: &SceneNode, transform: &Mat4, bbox: &mut BBox)
    ensures
        *final(bbox) == bb_fold(*old(bbox), world_points(*node, transform@)),
        bbox_wf(*old(bbox)) ==> bbox_wf(*final(bbox)),
    decreases node,
{
    let ghost b0 = *bbox;

    // update transformation
    let te: Mat4 = match &node.transform {
        Some(l) => crate::linalg::mat4_mul(transform, l),
        None => *transform,
    };
    let ghost tev = te@;
    proof {
        assert(tev == child_transform(transform@, *node));
    }

    // compute bounding volume for all parts
    let mut i: usize = 0;
    while i < node.shapes.len()
        invariant
            i <= node.shapes@.len(),
            *bbox == bb_fold(b0, shapes_points(node.shapes@.take(i as int), tev)),
            bbox_wf(b0) ==> bbox_wf(*bbox),
        decreases node.shapes@.len() - i,
    {
        let ghost bs = *bbox;
        let mut j: usize = 0;
        while j < node.shapes[i].parts.len()
            invariant
                i < node.shapes@.len(),
                j <= node.shapes@[i as int].parts@.len(),
                *bbox == bb_fold(bs, parts_points(node.shapes@[i as int].parts@.take(j as int), tev)),
                bbox_wf(b0) ==> bbox_wf(*bbox),
            decreases node.shapes@[i as int].parts@.len() - j,
        {
            let ghost bp = *bbox;
            let ghost pts = part_points(node.shapes@[i as int].parts@[j as int].mesh.positions@, tev);
            let mut k: usize = 0;
            while k < node.shapes[i].parts[j].mesh.positions.len()
                invariant
                    i < node.shapes@.len(),
                    j < node.shapes@[i as int].parts@.len(),
                    k <= pts.len(),
                    *bbox == bb_fold(bp, pts.take(k as int)),
                    bbox_wf(b0) ==> bbox_wf(*bbox),
                decreases pts.len() - k,
            {
                let p = crate::linalg::transform_point(
                    &te,
                    &node.shapes[i].parts[j].mesh.positions[k],
                    F32_ONE,
                );
                proof {
                    assert(p == pts[k as int]) by {
                        let q = node.shapes@[i as int].parts@[j as int].mesh.positions@[k as int];
                        assert(pts[k as int] == tf_point(tev, q));
                        assert(p@ == tfpt_bits(tev, q@, F32_ONE));
                        assert(p.x == p@[0] && p.y == p@[1] && p.z == p@[2]);
                    }
                    lemma_bb_fold_snoc(bp, pts, k as int);
                    assert(pts.take(k as int + 1) == pts.take(k as int).push(pts[k as int]));
                }
                bbox.extend_pos(&p);
                k = k + 1;
            }
            proof {
                assert(pts.take(pts.len() as int) =~= pts);
                lemma_parts_points_snoc(node.shapes@[i as int].parts@, tev, j as int);
                lemma_bb_fold_concat(
                    bs,
                    parts_points(node.shapes@[i as int].parts@.take(j as int), tev),
                    pts,
                );
            }
            j = j + 1;
        }
        proof {
            let ss = node.shapes@;
            assert(ss[i as int].parts@.take(ss[i as int].parts@.len() as int) =~= ss[i as int].parts@);
            lemma_shapes_points_snoc(ss, tev, i as int);
            lemma_bb_fold_concat(
                b0,
                shapes_points(ss.take(i as int), tev),
                parts_points(ss[i as int].parts@, tev),
            );
        }
        i = i + 1;
    }
    proof {
        assert(node.shapes@.take(node.shapes@.len() as int) =~= node.shapes@);
    }

    // iterate over all children and update the global volume
    let ghost bo = *bbox;
    let mut c: usize = 0;
    while c < node.children.len()
        invariant
            c <= node.children@.len(),
            *bbox == bb_fold(bo, forest_points(node.children@.take(c as int), tev)),
            bbox_wf(b0) ==> bbox_wf(*bbox),
        decreases node.children@.len() - c,
    {
        proof {
            assert(decreases_to!(node => node.children@[c as int]));
        }
        let ghost bc = *bbox;
        compute_bbox(&node.children[c], &te, bbox);
        proof {
            lemma_forest_points_snoc(node.children@, tev, c as int);
            lemma_bb_fold_concat(
                bo,
                forest_points(node.children@.take(c as int), tev),
                world_points(node.children@[c as int], tev),
            );
        }
        c = c + 1;
    }
    proof {
        assert(node.children@.take(node.children@.len() as int) =~= node.children@);
        lemma_bb_fold_concat(
            b0,
            shapes_points(node.shapes@, tev),
            forest_points(node.children@, tev),
        );
    }
}

// ---------------------------------------------------------------------------
// Laws of compilation.
// ---------------------------------------------------------------------------

/// Every instance's shape index is a valid index into the compiled-shape
/// list.
pub open spec fn gpu_wf(d: GPUData) -> bool {
    forall|i: int|
        0 <= i < d.instances@.len() ==> (#[trigger] d.instances@[i].shape_index as int)
            < d.shapes@.len()
}

/// Deduplication: the compiled identities contain every referenced
/// identity exactly once, so references sharing an identity share one
/// compiled shape.
pub proof fn lemma_compile_dedup(rs: Seq<(Seq<u32>, ShapeRef)>)
    ensures
        no_dups(dedup_ids(rs, Seq::empty())),
        forall|k: int|
            0 <= k < rs.len() ==> dedup_ids(rs, Seq::empty()).contains(#[trigger] rs[k].1.id),
    decreases rs.len(),
{
    lemma_dedup_covers(rs, Seq::empty());
    assert(Seq::empty() + dedup_ids(rs, Seq::empty()) =~= dedup_ids(rs, Seq::empty()));
    assert forall|k: int| 0 <= k < rs.len() implies dedup_ids(rs, Seq::empty()).contains(
        #[trigger] rs[k].1.id,
    ) by {
        assert((Seq::empty() + dedup_ids(rs, Seq::empty())).contains(rs[k].1.id));
    }
}

/// A forest's flattening splits at any position into the flattenings of
/// the prefix and the rest.
pub proof fn lemma_flat_children_split(cs: Seq<SceneNode>, t: Seq<u32>, m: int)
    requires
        0 <= m <= cs.len(),
    ensures
        flat_refs_children(cs, t) == flat_refs_children(cs.take(m), t) + flat_refs_children(
            cs.skip(m),
            t,
        ),
    decreases cs.len() - m,
{
    if m == cs.len() {
        assert(cs.take(m) =~= cs);
        assert(cs.skip(m) =~= Seq::<SceneNode>::empty());
        assert(flat_refs_children(cs.skip(m), t).len() == 0);
        assert(flat_refs_children(cs.take(m), t) + flat_refs_children(cs.skip(m), t)
            =~= flat_refs_children(cs, t));
    } else {
        lemma_flat_children_split(cs, t, m + 1);
        lemma_flat_children_snoc(cs, t, m);
        let fm = flat_refs(cs[m], child_transform(t, cs[m]));
        assert(cs.skip(m).len() > 0);
        assert(cs.skip(m)[0] == cs[m]);
        assert(cs.skip(m).drop_first() =~= cs.skip(m + 1));
        assert(flat_refs_children(cs.skip(m), t) == fm + flat_refs_children(cs.skip(m + 1), t));
        assert((flat_refs_children(cs.take(m), t) + fm) + flat_refs_children(cs.skip(m + 1), t)
            =~= flat_refs_children(cs.take(m), t) + (fm + flat_refs_children(cs.skip(m + 1), t)));
    }
}

/// Transform composition: the shapes referenced directly by the child at
/// position `ci` of `n` appear in the flattening of `n` with the world
/// transform `child_transform(t, child)` — the accumulated transform of
/// `n` composed with the child's local transform, or unchanged when the
/// child carries none.
pub proof fn lemma_transform_composition(n: SceneNode, t: Seq<u32>, ci: int, k: int)
    ensures
        0 <= ci < n.children@.len() && 0 <= k < n.children@[ci].shapes@.len() ==> ({
            let child = n.children@[ci];
            let pos = n.shapes@.len() + flat_refs_children(n.children@.take(ci), t).len() + k;
            let f = flat_refs(n, t);
            &&& 0 <= pos < f.len()
            &&& f[pos] == (child_transform(t, child), child.shapes@[k])
        }),
{
    if 0 <= ci < n.children@.len() && 0 <= k < n.children@[ci].shapes@.len() {
        let child = n.children@[ci];
        let cs = n.children@;
        let own = n.shapes@.map(|i: int, s: ShapeRef| (t, s));
        lemma_flat_children_split(cs, t, ci);
        lemma_flat_children_snoc(cs, t, ci);
        let before = flat_refs_children(cs.take(ci), t);
        let fc = flat_refs(child, child_transform(t, child));
        let after = flat_refs_children(cs.skip(ci + 1), t);
        assert(cs.take(ci + 1).take(ci) =~= cs.take(ci));
        lemma_flat_children_split(cs, t, ci + 1);
        assert(flat_refs_children(cs, t) == (before + fc) + after);
        let childown = child.shapes@.map(|i: int, s: ShapeRef| (child_transform(t, child), s));
        assert(fc == childown + flat_refs_children(child.children@, child_transform(t, child)));
        assert(childown[k] == (child_transform(t, child), child.shapes@[k]));
        let f = flat_refs(n, t);
        assert(f == own + ((before + fc) + after));
        let pos = n.shapes@.len() + before.len() + k;
        assert(f[pos] == fc[k]);
        assert(fc[k] == childown[k]);
    }
}

} // verus!
