//! The semi-implicit integrator: advances predicted positions and
//! orientations from velocities and external forces for one substep, and
//! snapshots the pre-solve velocities.
//!
//! Kinematic and static bodies are skipped entirely: their state is
//! authoritative from outside and the integrator never writes it.

use vstd::prelude::*;
use crate::body::{inv_inertia_world_s, Body};
use crate::components::RigidBody;
use crate::fp::{fp_mul, smul};
use crate::mat3::m3_mul_vec;
use crate::rot::{q_add, q_mul, q_normalize, q_scale, Rot};
use crate::vec3::{v3_add, v3_scale, Vec3};

verus! {

/// Half, in fixed point.
pub const HALF_FP: i64 = 524288;

/// One dynamic body integrated over a substep: velocities pick up the
/// external force (with gravity scaled by mass) and torque through the
/// inverse mass and inertia, the pre-solve velocities are snapshotted,
/// the previous pose saved, and the pose advanced - the orientation by
/// the half-step quaternion update followed by normalization. A
/// non-dynamic body is returned exactly as it was.
#[verifier::opaque]
pub open spec fn integrated_body_s(b: Body, gravity: Vec3, sub_dt: i64) -> Body {
    if b.rigid_body != RigidBody::Dynamic {
        b
    } else {
        let force = v3_add(b.external_force, v3_scale(gravity, b.mass.mass));
        let v = v3_add(b.lin_vel, v3_scale(force, smul(sub_dt, b.mass.inverse)));
        let w = v3_add(b.ang_vel, v3_scale(m3_mul_vec(inv_inertia_world_s(b), b.external_torque), sub_dt));
        let pos2 = v3_add(b.pos, v3_scale(v, sub_dt));
        let wq = Rot { x: w.x, y: w.y, z: w.z, w: 0 };
        let dq = q_scale(q_mul(wq, b.rot), smul(HALF_FP, sub_dt));
        let rot2 = q_normalize(q_add(b.rot, dq));
        Body {
            prev_pos: b.pos,
            pos: pos2,
            prev_rot: b.rot,
            rot: rot2,
            lin_vel: v,
            ang_vel: w,
            pre_solve_lin_vel: v,
            pre_solve_ang_vel: w,
            ..b
        }
    }
}

/// Integrates one body over a substep; see [`integrated_body_s`].
pub fn integrate_body(b: &mut Body, gravity: &Vec3, sub_dt: i64)
    ensures
        *final(b) == integrated_body_s(*old(b), *gravity, sub_dt),
        old(b).rigid_body != RigidBody::Dynamic ==> *final(b) == *old(b),
{
    proof {
        reveal(integrated_body_s);
    }
    if b.rigid_body.is_dynamic() {
        let force = b.external_force.plus(&gravity.scaled(b.mass.get()));
        let v = b.lin_vel.plus(&force.scaled(fp_mul(sub_dt, b.mass.inverse())));
        let w = b.ang_vel.plus(&b.inv_inertia_world().mul_vec(&b.external_torque).scaled(sub_dt));
        let pos2 = b.pos.plus(&v.scaled(sub_dt));
        let wq = Rot { x: w.x, y: w.y, z: w.z, w: 0 };
        let dq = wq.mul(&b.rot).scaled(fp_mul(HALF_FP, sub_dt));
        let rot2 = b.rot.plus(&dq).normalize();
        b.prev_pos = b.pos;
        b.pos = pos2;
        b.prev_rot = b.rot;
        b.rot = rot2;
        b.lin_vel = v;
        b.ang_vel = w;
        b.pre_solve_lin_vel = v;
        b.pre_solve_ang_vel = w;
    }
}

/// Integrates every body of the arena over a substep.
pub fn integrate(bodies: &mut Vec<Body>, gravity: &Vec3, sub_dt: i64)
    ensures
        final(bodies).len() == old(bodies).len(),
        forall|i: int|
            0 <= i < old(bodies).len() ==> final(bodies)@[i] == integrated_body_s(
                #[trigger] old(bodies)@[i],
                *gravity,
                sub_dt,
            ),
        forall|i: int|
            0 <= i < old(bodies).len() && (#[trigger] old(bodies)@[i]).rigid_body
                != RigidBody::Dynamic ==> final(bodies)@[i] == old(bodies)@[i],
{
    proof {
        reveal(integrated_body_s);
    }
    let n = bodies.len();
    let mut i: usize = 0;
    while i < n
        invariant
            n == bodies.len(),
            bodies.len() == old(bodies).len(),
            i <= n,
            forall|k: int|
                0 <= k < i ==> bodies@[k] == integrated_body_s(
                    #[trigger] old(bodies)@[k],
                    *gravity,
                    sub_dt,
                ),
            forall|k: int| i <= k < n ==> bodies@[k] == #[trigger] old(bodies)@[k],
        decreases n - i,
    {
        let mut b = bodies[i];
        integrate_body(&mut b, gravity, sub_dt);
        bodies.set(i, b);
        i = i + 1;
    }
}

} // verus!
