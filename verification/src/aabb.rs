//! Axis-aligned bounding boxes: the minimal cull-test volume for an
//! object.  A box is the component-wise minimum and maximum of a non-empty
//! set of points; two boxes intersect when their extents overlap on every
//! axis, and a shared boundary counts as an intersection.

use vstd::prelude::*;

use crate::math::Vec3;

verus! {

/// An axis-aligned bounding box, described by its two extreme corners.
#[derive(PartialEq, Eq, Structural, Clone, Copy, Debug)]
pub struct AxisAlignedBoundingBox {
    pub min: Vec3,
    pub max: Vec3,
}

/// The box is non-degenerate: its minimum corner lies at or below its
/// maximum corner on every axis.
pub open spec fn aabb_wf(b: AxisAlignedBoundingBox) -> bool {
    &&& b.min.x <= b.max.x
    &&& b.min.y <= b.max.y
    &&& b.min.z <= b.max.z
}

/// The point `p` lies inside `b` or on its boundary.
pub open spec fn aabb_contains(b: AxisAlignedBoundingBox, p: Vec3) -> bool {
    &&& b.min.x <= p.x <= b.max.x
    &&& b.min.y <= p.y <= b.max.y
    &&& b.min.z <= p.z <= b.max.z
}

/// The boxes `a` and `b` share at least one point; touching boundaries
/// count as sharing.
pub open spec fn aabb_intersects(a: AxisAlignedBoundingBox, b: AxisAlignedBoundingBox) -> bool {
    &&& a.min.x <= b.max.x && b.min.x <= a.max.x
    &&& a.min.y <= b.max.y && b.min.y <= a.max.y
    &&& a.min.z <= b.max.z && b.min.z <= a.max.z
}

impl AxisAlignedBoundingBox {
    /// Construct a box from explicit corners.
    pub fn new(min: Vec3, max: Vec3) -> (r: AxisAlignedBoundingBox)
        ensures
            r == (AxisAlignedBoundingBox { min, max }),
    {
        AxisAlignedBoundingBox { min, max }
    }

    /// The tightest box around a non-empty set of points: every point lies
    /// inside it and each of its six face planes is attained by some point.
    pub fn new_with_positions(positions: &Vec<Vec3>) -> (r: AxisAlignedBoundingBox)
        requires
            positions@.len() > 0,
        ensures
            aabb_wf(r),
            forall|i: int| 0 <= i < positions@.len() ==> aabb_contains(r, #[trigger] positions@[i]),
            exists|i: int| 0 <= i < positions@.len() && #[trigger] positions@[i].x == r.min.x,
            exists|i: int| 0 <= i < positions@.len() && #[trigger] positions@[i].y == r.min.y,
            exists|i: int| 0 <= i < positions@.len() && #[trigger] positions@[i].z == r.min.z,
            exists|i: int| 0 <= i < positions@.len() && #[trigger] positions@[i].x == r.max.x,
            exists|i: int| 0 <= i < positions@.len() && #[trigger] positions@[i].y == r.max.y,
            exists|i: int| 0 <= i < positions@.len() && #[trigger] positions@[i].z == r.max.z,
    {
        let first = positions[0];
        let mut min = first;
        let mut max = first;
        proof {
            assert(positions@[0].x == min.x && positions@[0].y == min.y && positions@[0].z
                == min.z);
            assert(aabb_contains(AxisAlignedBoundingBox { min, max }, positions@[0]));
        }
        let mut k: usize = 1;
        while k < positions.len()
            invariant
                1 <= k <= positions@.len(),
                min.x <= max.x && min.y <= max.y && min.z <= max.z,
                forall|i: int| 0 <= i < k ==> aabb_contains(
                    AxisAlignedBoundingBox { min, max },
                    #[trigger] positions@[i],
                ),
                exists|i: int| 0 <= i < k && #[trigger] positions@[i].x == min.x,
                exists|i: int| 0 <= i < k && #[trigger] positions@[i].y == min.y,
                exists|i: int| 0 <= i < k && #[trigger] positions@[i].z == min.z,
                exists|i: int| 0 <= i < k && #[trigger] positions@[i].x == max.x,
                exists|i: int| 0 <= i < k && #[trigger] positions@[i].y == max.y,
                exists|i: int| 0 <= i < k && #[trigger] positions@[i].z == max.z,
            decreases positions@.len() - k,
        {
            let p = positions[k];
            if p.x < min.x {
                min.x = p.x;
            }
            if p.y < min.y {
                min.y = p.y;
            }
            if p.z < min.z {
                min.z = p.z;
            }
            if p.x > max.x {
                max.x = p.x;
            }
            if p.y > max.y {
                max.y = p.y;
            }
            if p.z > max.z {
                max.z = p.z;
            }
            proof {
                assert(positions@[k as int] == p);
                assert(aabb_contains(AxisAlignedBoundingBox { min, max }, positions@[k as int]));
            }
            k = k + 1;
        }
        AxisAlignedBoundingBox { min, max }
    }

    /// Whether this box and `other` share at least one point; a touching
    /// boundary counts as visible overlap.
    pub fn intersects(&self, other: &AxisAlignedBoundingBox) -> (r: bool)
        ensures
            r == aabb_intersects(*self, *other),
    {
        self.min.x <= other.max.x && other.min.x <= self.max.x && self.min.y <= other.max.y
            && other.min.y <= self.max.y && self.min.z <= other.max.z && other.min.z <= self.max.z
    }
}

/// Two well-formed boxes that merely touch on one face still intersect:
/// boundary contact counts as visible.
pub proof fn lemma_boundary_touch_is_intersection(
    a: AxisAlignedBoundingBox,
    b: AxisAlignedBoundingBox,
)
    requires
        aabb_wf(a),
        aabb_wf(b),
        a.max.x == b.min.x,
        a.min.y <= b.max.y && b.min.y <= a.max.y,
        a.min.z <= b.max.z && b.min.z <= a.max.z,
    ensures
        aabb_intersects(a, b),
{
}

/// Intersection is symmetric: culling does not depend on which box is the
/// frustum and which is the object.
pub proof fn lemma_intersects_symmetric(a: AxisAlignedBoundingBox, b: AxisAlignedBoundingBox)
    ensures
        aabb_intersects(a, b) == aabb_intersects(b, a),
{
}

} // verus!
