//! Axis-aligned bounding box accumulator.
//!
//! A fresh box carries the sentinel corners (`f32::MAX`, `f32::MIN`) so that
//! any real point extends it.  Extension is a componentwise `min`/`max`
//! update; its contract states the exact result, that the box only grows,
//! that extending twice with one point equals extending once, and that the
//! box is non-empty once a point free of NaN components went in.

use vstd::prelude::*;

use crate::fbits::{
    add_bits, div_bits, float_le, float_lt, is_nan32, max_bits, min_bits, sub_bits,
    F32_MAX_BITS, F32_MIN_BITS, F32_TWO,
};
use crate::linalg::Vec3;

verus! {

/// An axis-aligned bounding volume, corners held as bit patterns.
#[derive(Clone, Copy, PartialEq, Eq, Debug)]
pub struct BBox {
    /// The corner with the lower coordinates.
    pub min: Vec3,
    /// The corner with the upper coordinates.
    pub max: Vec3,
}

/// No corner component is a NaN; `new` establishes this and extension
/// preserves it.
pub open spec fn bbox_wf(b: BBox) -> bool {
    &&& !is_nan32(b.min.x)
    &&& !is_nan32(b.min.y)
    &&& !is_nan32(b.min.z)
    &&& !is_nan32(b.max.x)
    &&& !is_nan32(b.max.y)
    &&& !is_nan32(b.max.z)
}

/// Empty: some lower corner component lies strictly above its upper
/// counterpart.
pub open spec fn bbox_is_empty(b: BBox) -> bool {
    ||| float_lt(b.max.x, b.min.x)
    ||| float_lt(b.max.y, b.min.y)
    ||| float_lt(b.max.z, b.min.z)
}

/// The box after taking the point `p` in: componentwise `min` and `max`.
pub open spec fn bbox_extend_pos(b: BBox, p: Vec3) -> BBox {
    BBox {
        min: Vec3 {
            x: min_bits(b.min.x, p.x),
            y: min_bits(b.min.y, p.y),
            z: min_bits(b.min.z, p.z),
        },
        max: Vec3 {
            x: max_bits(b.max.x, p.x),
            y: max_bits(b.max.y, p.y),
            z: max_bits(b.max.z, p.z),
        },
    }
}

/// The box after union with a second box.
pub open spec fn bbox_extend_bbox(b: BBox, rhs: BBox) -> BBox {
    BBox {
        min: Vec3 {
            x: min_bits(b.min.x, rhs.min.x),
            y: min_bits(b.min.y, rhs.min.y),
            z: min_bits(b.min.z, rhs.min.z),
        },
        max: Vec3 {
            x: max_bits(b.max.x, rhs.max.x),
            y: max_bits(b.max.y, rhs.max.y),
            z: max_bits(b.max.z, rhs.max.z),
        },
    }
}

/// The center: componentwise `(min + max) / 2`.
pub open spec fn bbox_center(b: BBox) -> Seq<u32> {
    seq![
        div_bits(add_bits(b.min.x, b.max.x), F32_TWO),
        div_bits(add_bits(b.min.y, b.max.y), F32_TWO),
        div_bits(add_bits(b.min.z, b.max.z), F32_TWO),
    ]
}

/// The size: componentwise `max - min`.
pub open spec fn bbox_size(b: BBox) -> Seq<u32> {
    seq![
        sub_bits(b.max.x, b.min.x),
        sub_bits(b.max.y, b.min.y),
        sub_bits(b.max.z, b.min.z),
    ]
}

/// The box after extension with every point of `pts`, in order.
pub open spec fn bb_fold(b: BBox, pts: Seq<Vec3>) -> BBox
    decreases pts.len(),
{
    if pts.len() == 0 {
        b
    } else {
        bb_fold(bbox_extend_pos(b, pts[0]), pts.drop_first())
    }
}

/// Folding a concatenation folds the two halves in turn.
pub proof fn lemma_bb_fold_concat(b: BBox, s1: Seq<Vec3>, s2: Seq<Vec3>)
    ensures
        bb_fold(b, s1 + s2) == bb_fold(bb_fold(b, s1), s2),
    decreases s1.len(),
{
    if s1.len() == 0 {
        assert(s1 + s2 =~= s2);
    } else {
        assert((s1 + s2).len() > 0);
        assert((s1 + s2)[0] == s1[0]);
        assert((s1 + s2).drop_first() =~= s1.drop_first() + s2);
        lemma_bb_fold_concat(bbox_extend_pos(b, s1[0]), s1.drop_first(), s2);
    }
}

/// Folding one point more extends the fold of the prefix by that point.
pub proof fn lemma_bb_fold_snoc(b: BBox, s: Seq<Vec3>, k: int)
    requires
        0 <= k < s.len(),
    ensures
        bb_fold(b, s.take(k + 1)) == bbox_extend_pos(bb_fold(b, s.take(k)), s[k]),
{
    assert(s.take(k + 1) =~= s.take(k) + seq![s[k]]);
    lemma_bb_fold_concat(b, s.take(k), seq![s[k]]);
    let x = bb_fold(b, s.take(k));
    assert(seq![s[k]].drop_first() =~= Seq::<Vec3>::empty());
    assert(bb_fold(x, seq![s[k]]) == bb_fold(bbox_extend_pos(x, s[k]), seq![s[k]].drop_first()));
}

impl BBox {
    /// Creates a new empty bounding volume: every real point lies below the
    /// minimum and above the maximum corner.
    pub fn new() -> (r: BBox)
        ensures
            r.min.x == F32_MAX_BITS && r.min.y == F32_MAX_BITS && r.min.z == F32_MAX_BITS,
            r.max.x == F32_MIN_BITS && r.max.y == F32_MIN_BITS && r.max.z == F32_MIN_BITS,
            bbox_wf(r),
            bbox_is_empty(r),
    {
        BBox {
            min: Vec3 { x: F32_MAX_BITS, y: F32_MAX_BITS, z: F32_MAX_BITS },
            max: Vec3 { x: F32_MIN_BITS, y: F32_MIN_BITS, z: F32_MIN_BITS },
        }
    }

    /// Returns true if the box is empty and false otherwise.
    pub fn is_empty(&self) -> (r: bool)
        ensures
            r == bbox_is_empty(*self),
    {
        let e0 = crate::fbits::f32_lt(self.max.x, self.min.x);
        let e1 = crate::fbits::f32_lt(self.max.y, self.min.y);
        let e2 = crate::fbits::f32_lt(self.max.z, self.min.z);
        e0 || e1 || e2
    }

    /// Extends the volume to cover the position `p`.
    ///
    /// The volume only grows, extending a well-formed volume with one
    /// point twice equals extending once, and a point without NaN
    /// components leaves the box non-empty.
    pub fn extend_pos(&mut self, p: &Vec3)
        ensures
            *final(self) == bbox_extend_pos(*old(self), *p),
            bbox_wf(*old(self)) ==> bbox_extend_pos(*final(self), *p) == *final(self),
            bbox_wf(*old(self)) ==> bbox_wf(*final(self)),
            bbox_wf(*old(self)) ==> {
                &&& float_le(final(self).min.x, old(self).min.x) || is_nan32(old(self).min.x)
                &&& float_le(final(self).min.y, old(self).min.y) || is_nan32(old(self).min.y)
                &&& float_le(final(self).min.z, old(self).min.z) || is_nan32(old(self).min.z)
                &&& float_le(old(self).max.x, final(self).max.x) || is_nan32(old(self).max.x)
                &&& float_le(old(self).max.y, final(self).max.y) || is_nan32(old(self).max.y)
                &&& float_le(old(self).max.z, final(self).max.z) || is_nan32(old(self).max.z)
            },
            bbox_wf(*old(self)) && !is_nan32(p.x) && !is_nan32(p.y) && !is_nan32(p.z)
                ==> !bbox_is_empty(*final(self)),
    {
        self.min.x = crate::fbits::f32_min(self.min.x, p.x);
        self.min.y = crate::fbits::f32_min(self.min.y, p.y);
        self.min.z = crate::fbits::f32_min(self.min.z, p.z);

        self.max.x = crate::fbits::f32_max(self.max.x, p.x);
        self.max.y = crate::fbits::f32_max(self.max.y, p.y);
        self.max.z = crate::fbits::f32_max(self.max.z, p.z);

        // A second round of the same updates pins down that the box is now a
        // fixed point of extension by `p`; the values are already in place,
        // so each call returns its first operand.
        let s0 = crate::fbits::f32_min(self.min.x, p.x);
        let s1 = crate::fbits::f32_min(self.min.y, p.y);
        let s2 = crate::fbits::f32_min(self.min.z, p.z);
        let t0 = crate::fbits::f32_max(self.max.x, p.x);
        let t1 = crate::fbits::f32_max(self.max.y, p.y);
        let t2 = crate::fbits::f32_max(self.max.z, p.z);
        proof {
            if bbox_wf(*old(self)) {
                assert(s0 == self.min.x && s1 == self.min.y && s2 == self.min.z);
                assert(t0 == self.max.x && t1 == self.max.y && t2 == self.max.z);
                assert(bbox_extend_pos(*self, *p) == *self);
            }
        }
    }

    /// Extends the volume to cover the volume `rhs` as well.
    pub fn extend_bbox(&mut self, rhs: &BBox)
        ensures
            *final(self) == bbox_extend_bbox(*old(self), *rhs),
            bbox_wf(*old(self)) && bbox_wf(*rhs) ==> bbox_wf(*final(self)),
    {
        self.min.x = crate::fbits::f32_min(self.min.x, rhs.min.x);
        self.min.y = crate::fbits::f32_min(self.min.y, rhs.min.y);
        self.min.z = crate::fbits::f32_min(self.min.z, rhs.min.z);

        self.max.x = crate::fbits::f32_max(self.max.x, rhs.max.x);
        self.max.y = crate::fbits::f32_max(self.max.y, rhs.max.y);
        self.max.z = crate::fbits::f32_max(self.max.z, rhs.max.z);
    }

    /// Computes and returns the center of the box.
    pub fn get_center(&self) -> (r: Vec3)
        ensures
            r@ == bbox_center(*self),
    {
        let r = Vec3 {
            x: crate::fbits::f32_div(crate::fbits::f32_add(self.min.x, self.max.x), F32_TWO),
            y: crate::fbits::f32_div(crate::fbits::f32_add(self.min.y, self.max.y), F32_TWO),
            z: crate::fbits::f32_div(crate::fbits::f32_add(self.min.z, self.max.z), F32_TWO),
        };
        proof {
            assert(r@ =~= bbox_center(*self));
        }
        r
    }

    /// Computes and returns the size of the box.
    ///
    /// For a box whose corners coincide on finite coordinates the size is
    /// exactly the zero vector.
    pub fn get_size(&self) -> (r: Vec3)
        ensures
            r@ == bbox_size(*self),
            self.min == self.max && crate::fbits::is_finite32(self.min.x)
                && crate::fbits::is_finite32(self.min.y) && crate::fbits::is_finite32(self.min.z)
                ==> r@ == seq![crate::fbits::F32_ZERO, crate::fbits::F32_ZERO, crate::fbits::F32_ZERO],
    {
        let r = Vec3 {
            x: crate::fbits::f32_sub(self.max.x, self.min.x),
            y: crate::fbits::f32_sub(self.max.y, self.min.y),
            z: crate::fbits::f32_sub(self.max.z, self.min.z),
        };
        proof {
            assert(r@ =~= bbox_size(*self));
            if self.min == self.max && crate::fbits::is_finite32(self.min.x)
                && crate::fbits::is_finite32(self.min.y) && crate::fbits::is_finite32(self.min.z) {
                assert(r@ =~= seq![
                    crate::fbits::F32_ZERO,
                    crate::fbits::F32_ZERO,
                    crate::fbits::F32_ZERO,
                ]);
            }
        }
        r
    }

    /// Returns the minimum corner.
    pub fn get_min(&self) -> (r: &Vec3)
        ensures
            r == self.min,
    {
        &self.min
    }

    /// Returns the maximum corner.
    pub fn get_max(&self) -> (r: &Vec3)
        ensures
            r == self.max,
    {
        &self.max
    }
}

impl Default for BBox {
    /// The default volume is the fresh empty one.
    fn default() -> (r: BBox)
        ensures
            r.min.x == F32_MAX_BITS && r.min.y == F32_MAX_BITS && r.min.z == F32_MAX_BITS,
            r.max.x == F32_MIN_BITS && r.max.y == F32_MIN_BITS && r.max.z == F32_MIN_BITS,
            bbox_is_empty(r),
    {
        BBox::new()
    }
}

} // verus!
