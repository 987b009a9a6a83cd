//! The broad phase: candidate pair generation from world bounding boxes.
//!
//! The output is the complete, deduplicated, deterministically ordered
//! list of index pairs whose boxes overlap, excluding self-pairs and pairs
//! of two non-dynamic bodies. The order is the lexicographic order of the
//! indices, so a replay over the same input is reproducible; no behavior
//! depends on any hash iteration order.

use vstd::prelude::*;
use crate::components::{aabb_of_shape, ColliderAabb, RigidBody, Shape};
use crate::fp::{fp_abs, sabs, sadd, smul};
use crate::mat3::{m3_from_quat, Mat3};
use crate::rot::Rot;
use crate::vec3::{v3_add, v3_dot, v3_sub, Vec3};

verus! {

/// Component-wise absolute value.
pub open spec fn v3_abs(a: Vec3) -> Vec3 {
    Vec3 { x: sabs(a.x), y: sabs(a.y), z: sabs(a.z) }
}

/// The world-space bounding box of a shape at a pose: a ball's box is the
/// position plus/minus the radius; a box's extent along each world axis is
/// the absolute rotation matrix applied to the half-extents.
pub open spec fn world_aabb_s(shape: Shape, pos: Vec3, rot: Rot) -> ColliderAabb {
    match shape {
        Shape::Sphere { radius } => {
            let e = Vec3 { x: radius, y: radius, z: radius };
            ColliderAabb { mins: v3_sub(pos, e), maxs: v3_add(pos, e) }
        },
        Shape::Cuboid { hx, hy, hz } => {
            let m = m3_from_quat(rot.x, rot.y, rot.z, rot.w);
            let h = Vec3 { x: hx, y: hy, z: hz };
            let e = Vec3 {
                x: v3_dot(v3_abs(m.r0), h),
                y: v3_dot(v3_abs(m.r1), h),
                z: v3_dot(v3_abs(m.r2), h),
            };
            ColliderAabb { mins: v3_sub(pos, e), maxs: v3_add(pos, e) }
        },
    }
}

/// The world-space bounding box of a shape at a pose.
pub fn world_aabb(shape: &Shape, pos: &Vec3, rot: &Rot) -> (r: ColliderAabb)
    ensures
        r == world_aabb_s(*shape, *pos, *rot),
{
    match *shape {
        Shape::Sphere { radius } => {
            let e = Vec3 { x: radius, y: radius, z: radius };
            ColliderAabb { mins: pos.minus(&e), maxs: pos.plus(&e) }
        },
        Shape::Cuboid { hx, hy, hz } => {
            let m = Mat3::from_quat(rot.x, rot.y, rot.z, rot.w);
            let h = Vec3 { x: hx, y: hy, z: hz };
            let a0 = Vec3 { x: fp_abs(m.r0.x), y: fp_abs(m.r0.y), z: fp_abs(m.r0.z) };
            let a1 = Vec3 { x: fp_abs(m.r1.x), y: fp_abs(m.r1.y), z: fp_abs(m.r1.z) };
            let a2 = Vec3 { x: fp_abs(m.r2.x), y: fp_abs(m.r2.y), z: fp_abs(m.r2.z) };
            let e = Vec3 { x: a0.dot(&h), y: a1.dot(&h), z: a2.dot(&h) };
            ColliderAabb { mins: pos.minus(&e), maxs: pos.plus(&e) }
        },
    }
}

/// Two boxes overlap when they meet on every axis.
pub open spec fn aabbs_overlap(a: ColliderAabb, b: ColliderAabb) -> bool {
    a.mins.x <= b.maxs.x && b.mins.x <= a.maxs.x && a.mins.y <= b.maxs.y && b.mins.y <= a.maxs.y
        && a.mins.z <= b.maxs.z && b.mins.z <= a.maxs.z
}

/// `(i, j)` is a candidate pair: distinct indices in order, boxes that
/// overlap, and at least one dynamic body (two non-dynamic bodies never
/// produce a contact).
pub open spec fn is_candidate(
    aabbs: Seq<ColliderAabb>,
    kinds: Seq<RigidBody>,
    i: int,
    j: int,
) -> bool {
    0 <= i < j < aabbs.len() && (kinds[i] == RigidBody::Dynamic || kinds[j]
        == RigidBody::Dynamic) && aabbs_overlap(aabbs[i], aabbs[j])
}

/// Strict lexicographic order on index pairs.
pub open spec fn pair_lt(a: (usize, usize), b: (usize, usize)) -> bool {
    a.0 < b.0 || (a.0 == b.0 && a.1 < b.1)
}

/// `pairs` is exactly the candidate list of these boxes and kinds: every
/// entry is a candidate, every candidate appears, and the entries rise
/// strictly in lexicographic order (so each appears once and the list is
/// unique).
pub open spec fn is_broad_phase_output(
    pairs: Seq<(usize, usize)>,
    aabbs: Seq<ColliderAabb>,
    kinds: Seq<RigidBody>,
) -> bool {
    &&& forall|k: int|
        0 <= k < pairs.len() ==> is_candidate(
            aabbs,
            kinds,
            #[trigger] pairs[k].0 as int,
            pairs[k].1 as int,
        )
    &&& forall|i: int, j: int|
        is_candidate(aabbs, kinds, i, j) ==> exists|k: int|
            0 <= k < pairs.len() && #[trigger] pairs[k] == (i as usize, j as usize)
    &&& forall|k1: int, k2: int|
        0 <= k1 < k2 < pairs.len() ==> pair_lt(#[trigger] pairs[k1], #[trigger] pairs[k2])
}

/// Collects every candidate pair, each exactly once, in lexicographic
/// order of the indices.
pub fn broad_phase(aabbs: &Vec<ColliderAabb>, kinds: &Vec<RigidBody>) -> (r: Vec<(usize, usize)>)
    requires
        aabbs.len() == kinds.len(),
    ensures
        is_broad_phase_output(r@, aabbs@, kinds@),
        forall|k: int|
            0 <= k < r.len() ==> is_candidate(
                aabbs@,
                kinds@,
                #[trigger] r@[k].0 as int,
                r@[k].1 as int,
            ),
        forall|i: int, j: int|
            is_candidate(aabbs@, kinds@, i, j) ==> exists|k: int|
                0 <= k < r.len() && #[trigger] r@[k] == (i as usize, j as usize),
        forall|k1: int, k2: int|
            0 <= k1 < k2 < r.len() ==> pair_lt(#[trigger] r@[k1], #[trigger] r@[k2]),
{
    let n = aabbs.len();
    let mut r: Vec<(usize, usize)> = Vec::new();
    let mut i: usize = 0;
    while i < n
        invariant
            aabbs.len() == kinds.len(),
            n == aabbs.len(),
            i <= n,
            forall|k: int|
                0 <= k < r.len() ==> is_candidate(
                    aabbs@,
                    kinds@,
                    #[trigger] r@[k].0 as int,
                    r@[k].1 as int,
                ),
            forall|a: int, b: int|
                is_candidate(aabbs@, kinds@, a, b) && a < i ==> exists|k: int|
                    0 <= k < r.len() && #[trigger] r@[k] == (a as usize, b as usize),
            forall|k: int| 0 <= k < r.len() ==> (#[trigger] r@[k]).0 < i,
            forall|k1: int, k2: int|
                0 <= k1 < k2 < r.len() ==> pair_lt(#[trigger] r@[k1], #[trigger] r@[k2]),
        decreases n - i,
    {
        let mut j: usize = i + 1;
        while j < n
            invariant
                aabbs.len() == kinds.len(),
                n == aabbs.len(),
                i < n,
                i < j <= n,
                forall|k: int|
                    0 <= k < r.len() ==> is_candidate(
                        aabbs@,
                        kinds@,
                        #[trigger] r@[k].0 as int,
                        r@[k].1 as int,
                    ),
                forall|a: int, b: int|
                    is_candidate(aabbs@, kinds@, a, b) && (a < i || (a == i && b < j))
                        ==> exists|k: int|
                        0 <= k < r.len() && #[trigger] r@[k] == (a as usize, b as usize),
                forall|k: int|
                    0 <= k < r.len() ==> ((#[trigger] r@[k]).0 < i || (r@[k].0 == i && r@[k].1
                        < j)),
                forall|k1: int, k2: int|
                    0 <= k1 < k2 < r.len() ==> pair_lt(#[trigger] r@[k1], #[trigger] r@[k2]),
            decreases n - j,
        {
            let ghost r_before = r@;
            let one_dynamic = kinds[i].is_dynamic() || kinds[j].is_dynamic();
            let mut pushed = false;
            if one_dynamic {
                let a = aabbs[i];
                let b = aabbs[j];
                let overlap = a.mins.x <= b.maxs.x && b.mins.x <= a.maxs.x && a.mins.y <= b.maxs.y
                    && b.mins.y <= a.maxs.y && a.mins.z <= b.maxs.z && b.mins.z <= a.maxs.z;
                if overlap {
                    r.push((i, j));
                    pushed = true;
                    proof {
                        assert(r@[r.len() - 1] == (i, j));
                    }
                }
            }
            proof {
                if !pushed {
                    assert(!is_candidate(aabbs@, kinds@, i as int, j as int));
                }
                assert forall|a: int, b: int|
                    is_candidate(aabbs@, kinds@, a, b) && (a < i || (a == i && b < j + 1))
                        implies exists|k: int|
                    0 <= k < r.len() && #[trigger] r@[k] == (a as usize, b as usize) by {
                    if a == i && b == j {
                        assert(r@[r.len() - 1] == (a as usize, b as usize));
                    } else {
                        let k = choose|k: int|
                            0 <= k < r_before.len() && #[trigger] r_before[k] == (
                            a as usize,
                            b as usize,
                            );
                        assert(r@[k] == (a as usize, b as usize));
                    }
                }
            }
            j = j + 1;
        }
        i = i + 1;
    }
    r
}

} // verus!
