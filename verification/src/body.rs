//! The per-body simulation record: kind, kinematic state, mass properties.
//!
//! Bodies live in a caller-owned arena (a `Vec<Body>`) and are addressed
//! by index; the solver takes explicit slices rather than querying any
//! global store.

use vstd::prelude::*;
use crate::components::{
    mass_inverse_s, ColliderMassProperties, Friction, Inertia, LocalCom, Mass, Restitution,
    RigidBody, Shape,
};
use crate::fp::{sadd, ssub};
use crate::mat3::{m3_add, m3_from_quat, m3_mul, m3_sub, m3_transpose, Mat3};
use crate::rot::{q_identity, Rot};
use crate::vec3::{v3_add, v3_sub, Vec3};

verus! {

/// One rigid body's full state.
#[derive(Clone, Copy, Debug, PartialEq, Eq, Structural)]
pub struct Body {
    /// Dynamic, Static or Kinematic.
    pub rigid_body: RigidBody,
    /// World position.
    pub pos: Vec3,
    /// Position before the current substep's integration.
    pub prev_pos: Vec3,
    /// World orientation.
    pub rot: Rot,
    /// Orientation before the current substep's integration.
    pub prev_rot: Rot,
    /// Linear velocity.
    pub lin_vel: Vec3,
    /// Linear velocity snapshotted before position solving.
    pub pre_solve_lin_vel: Vec3,
    /// Angular velocity.
    pub ang_vel: Vec3,
    /// Angular velocity snapshotted before position solving.
    pub pre_solve_ang_vel: Vec3,
    /// Constant external force (besides gravity).
    pub external_force: Vec3,
    /// Constant external torque.
    pub external_torque: Vec3,
    /// Contact bounciness.
    pub restitution: Restitution,
    /// Contact friction.
    pub friction: Friction,
    /// Aggregate mass with its pseudo-inverse.
    pub mass: Mass,
    /// Aggregate local inertia tensor with its pseudo-inverse.
    pub inertia: Inertia,
    /// Aggregate local center of mass.
    pub local_com: LocalCom,
}

/// The state every new body starts from: at the origin, at rest, with
/// the default materials and no mass yet (the zero mass and inertia
/// invert to zero).
pub open spec fn blank_body_s(kind: RigidBody) -> Body {
    let zero = Vec3 { x: 0, y: 0, z: 0 };
    Body {
        rigid_body: kind,
        pos: zero,
        prev_pos: zero,
        rot: q_identity(),
        prev_rot: q_identity(),
        lin_vel: zero,
        pre_solve_lin_vel: zero,
        ang_vel: zero,
        pre_solve_ang_vel: zero,
        external_force: zero,
        external_torque: zero,
        restitution: Restitution(314573),
        friction: Friction { dynamic_coefficient: 314573, static_coefficient: 314573 },
        mass: Mass { mass: 0, inverse: 0 },
        inertia: Inertia { inertia: crate::mat3::m3_zero(), inverse: crate::mat3::m3_zero() },
        local_com: LocalCom(zero),
    }
}

/// The effective inverse mass the solver uses: the stored pseudo-inverse
/// for a dynamic body, zero (infinite mass) otherwise.
pub open spec fn inv_mass_s(b: Body) -> i64 {
    if b.rigid_body == RigidBody::Dynamic {
        b.mass.inverse
    } else {
        0
    }
}

/// The effective world-space inverse inertia the solver uses:
/// `R I_inv R^T` for a dynamic body, zero otherwise.
pub open spec fn inv_inertia_world_s(b: Body) -> Mat3 {
    if b.rigid_body == RigidBody::Dynamic {
        let r = m3_from_quat(b.rot.x, b.rot.y, b.rot.z, b.rot.w);
        m3_mul(m3_mul(r, b.inertia.inverse), m3_transpose(r))
    } else {
        crate::mat3::m3_zero()
    }
}

impl Body {
    /// The stored inverses match the stored mass and inertia.
    pub open spec fn wf(&self) -> bool {
        self.mass.wf() && self.inertia.wf()
    }

    fn blank(kind: RigidBody) -> (r: Body)
        ensures
            r == blank_body_s(kind),
            r.wf(),
    {
        let zero = Vec3 { x: 0, y: 0, z: 0 };
        Body {
            rigid_body: kind,
            pos: zero,
            prev_pos: zero,
            rot: Rot::identity(),
            prev_rot: Rot::identity(),
            lin_vel: zero,
            pre_solve_lin_vel: zero,
            ang_vel: zero,
            pre_solve_ang_vel: zero,
            external_force: zero,
            external_torque: zero,
            restitution: Restitution::default(),
            friction: Friction::default(),
            mass: Mass::new(0),
            inertia: Inertia::new(Mat3::zero()),
            local_com: LocalCom(zero),
        }
    }

    /// A dynamic body in the blank starting state.
    pub fn new_dynamic() -> (r: Body)
        ensures
            r == blank_body_s(RigidBody::Dynamic),
            r.wf(),
    {
        Body::blank(RigidBody::Dynamic)
    }

    /// A static body in the blank starting state.
    pub fn new_static() -> (r: Body)
        ensures
            r == blank_body_s(RigidBody::Static),
            r.wf(),
    {
        Body::blank(RigidBody::Static)
    }

    /// A kinematic body in the blank starting state.
    pub fn new_kinematic() -> (r: Body)
        ensures
            r == blank_body_s(RigidBody::Kinematic),
            r.wf(),
    {
        Body::blank(RigidBody::Kinematic)
    }

    /// The body moved to a position (its previous position follows, so no
    /// spurious velocity is derived from the move).
    pub fn with_pos(self, pos: Vec3) -> (r: Body)
        ensures
            r == (Body { pos: pos, prev_pos: pos, ..self }),
    {
        Body { pos, prev_pos: pos, ..self }
    }

    /// The body turned to an orientation.
    pub fn with_rot(self, rot: Rot) -> (r: Body)
        ensures
            r == (Body { rot: rot, prev_rot: rot, ..self }),
    {
        Body { rot, prev_rot: rot, ..self }
    }

    /// The body given a linear velocity.
    pub fn with_lin_vel(self, lin_vel: Vec3) -> (r: Body)
        ensures
            r == (Body { lin_vel: lin_vel, ..self }),
    {
        Body { lin_vel, ..self }
    }

    /// The body given an angular velocity.
    pub fn with_ang_vel(self, ang_vel: Vec3) -> (r: Body)
        ensures
            r == (Body { ang_vel: ang_vel, ..self }),
    {
        Body { ang_vel, ..self }
    }

    /// The body given a restitution coefficient.
    pub fn with_restitution(self, restitution: i64) -> (r: Body)
        ensures
            r == (Body { restitution: Restitution(restitution), ..self }),
    {
        Body { restitution: Restitution(restitution), ..self }
    }

    /// The body given a friction coefficient pair.
    pub fn with_friction(self, friction: Friction) -> (r: Body)
        ensures
            r == (Body { friction: friction, ..self }),
    {
        Body { friction, ..self }
    }

    /// The body's mass properties replaced by those a collider of the
    /// given shape and density would contribute.
    pub fn with_mass_props_from_shape(self, shape: &Shape, density: i64) -> (r: Body)
        requires
            crate::components::shape_wf(*shape),
            0 <= density,
        ensures
            r.mass.value() == crate::components::shape_mass_s(*shape, density),
            r.mass.wf(),
            r.inertia.value() == crate::components::shape_inertia_s(
                *shape,
                crate::components::shape_mass_s(*shape, density),
            ),
            r.inertia.wf(),
            r.local_com.0 == (Vec3 { x: 0, y: 0, z: 0 }),
            r == (Body { mass: r.mass, inertia: r.inertia, local_com: r.local_com, ..self }),
    {
        let props = ColliderMassProperties::from_shape_and_density(shape, density);
        Body {
            mass: props.mass,
            inertia: props.inertia,
            local_com: props.local_center_of_mass,
            ..self
        }
    }

    /// Adds a collider's contribution to the aggregate mass properties;
    /// the inverses are recomputed.
    pub fn add_mass_props(&mut self, p: &ColliderMassProperties)
        ensures
            final(self).mass.mass == sadd(old(self).mass.mass, p.mass.mass),
            final(self).mass.wf(),
            final(self).inertia.inertia == m3_add(old(self).inertia.inertia, p.inertia.inertia),
            final(self).inertia.wf(),
            final(self).local_com.0 == v3_add(old(self).local_com.0, p.local_center_of_mass.0),
            *final(self) == (Body {
                mass: final(self).mass,
                inertia: final(self).inertia,
                local_com: final(self).local_com,
                ..*old(self)
            }),
    {
        let m = crate::fp::fp_add(self.mass.get(), p.mass.get());
        self.mass = Mass::new(m);
        let i = self.inertia.get().plus(&p.inertia.get());
        self.inertia = Inertia::new(i);
        self.local_com = LocalCom(self.local_com.0.plus(&p.local_center_of_mass.0));
    }

    /// Removes a collider's contribution from the aggregate mass
    /// properties; the inverses are recomputed.
    pub fn remove_mass_props(&mut self, p: &ColliderMassProperties)
        ensures
            final(self).mass.mass == ssub(old(self).mass.mass, p.mass.mass),
            final(self).mass.wf(),
            final(self).inertia.inertia == m3_sub(old(self).inertia.inertia, p.inertia.inertia),
            final(self).inertia.wf(),
            final(self).local_com.0 == v3_sub(old(self).local_com.0, p.local_center_of_mass.0),
            *final(self) == (Body {
                mass: final(self).mass,
                inertia: final(self).inertia,
                local_com: final(self).local_com,
                ..*old(self)
            }),
    {
        let m = crate::fp::fp_sub(self.mass.get(), p.mass.get());
        self.mass = Mass::new(m);
        let i = self.inertia.get().minus(&p.inertia.get());
        self.inertia = Inertia::new(i);
        self.local_com = LocalCom(self.local_com.0.minus(&p.local_center_of_mass.0));
    }
}

/// A dynamic body shifted by an impulse `p` scaled by its inverse mass;
/// a static or kinematic body is left exactly as it was.
pub open spec fn body_shifted_s(b: Body, p: Vec3) -> Body {
    if b.rigid_body != RigidBody::Dynamic {
        b
    } else {
        Body { pos: v3_add(b.pos, crate::vec3::v3_scale(p, b.mass.inverse)), ..b }
    }
}

/// A dynamic body turned by an angular impulse `j`: the world inverse
/// inertia maps `j` to a rotation vector, which is applied as a small
/// quaternion step and re-normalized. A static or kinematic body is left
/// exactly as it was.
pub open spec fn body_rotated_s(b: Body, j: Vec3) -> Body {
    if b.rigid_body != RigidBody::Dynamic {
        b
    } else {
        let dw = crate::mat3::m3_mul_vec(inv_inertia_world_s(b), j);
        let wq = Rot { x: dw.x, y: dw.y, z: dw.z, w: 0 };
        let dq = crate::rot::q_scale(crate::rot::q_mul(wq, b.rot), 524288);
        Body { rot: crate::rot::q_normalize(crate::rot::q_add(b.rot, dq)), ..b }
    }
}

impl Body {
    /// The effective inverse mass: zero unless the body is dynamic.
    pub fn inv_mass_eff(&self) -> (r: i64)
        ensures
            r == inv_mass_s(*self),
    {
        if self.rigid_body.is_dynamic() {
            self.mass.inverse()
        } else {
            0
        }
    }

    /// The effective world-space inverse inertia: zero unless the body is
    /// dynamic.
    pub fn inv_inertia_world(&self) -> (r: Mat3)
        ensures
            r == inv_inertia_world_s(*self),
    {
        if self.rigid_body.is_dynamic() {
            let rm = crate::mat3::Mat3::from_quat(self.rot.x, self.rot.y, self.rot.z, self.rot.w);
            rm.mul_mat(&self.inertia.inverse()).mul_mat(&rm.transpose())
        } else {
            crate::mat3::Mat3::zero()
        }
    }

    /// The generalized inverse mass seen by a constraint acting along
    /// direction `n` at lever arm `r`:
    /// `w = inv_mass + (r x n)^T I_world_inv (r x n)`.
    pub fn gen_inv_mass(&self, r: &Vec3, n: &Vec3) -> (w: i64)
        ensures
            w == gen_inv_mass_s(*self, *r, *n),
    {
        let rn = r.cross(n);
        crate::fp::fp_add(self.inv_mass_eff(), rn.dot(&self.inv_inertia_world().mul_vec(&rn)))
    }

    /// Applies a positional impulse: the position moves by the impulse
    /// scaled by the inverse mass. Non-dynamic bodies are never written.
    pub fn apply_shift(&mut self, p: &Vec3)
        ensures
            *final(self) == body_shifted_s(*old(self), *p),
            old(self).rigid_body != RigidBody::Dynamic ==> *final(self) == *old(self),
    {
        if self.rigid_body.is_dynamic() {
            let d = p.scaled(self.mass.inverse());
            self.pos = self.pos.plus(&d);
        }
    }

    /// Applies an angular impulse as a small quaternion step followed by
    /// re-normalization. Non-dynamic bodies are never written.
    pub fn apply_rot_impulse(&mut self, j: &Vec3)
        ensures
            *final(self) == body_rotated_s(*old(self), *j),
            old(self).rigid_body != RigidBody::Dynamic ==> *final(self) == *old(self),
    {
        if self.rigid_body.is_dynamic() {
            let dw = self.inv_inertia_world().mul_vec(j);
            let wq = Rot { x: dw.x, y: dw.y, z: dw.z, w: 0 };
            let dq = wq.mul(&self.rot).scaled(524288);
            self.rot = self.rot.plus(&dq).normalize();
        }
    }
}

/// A dynamic body's velocities after a velocity-level impulse `p` at
/// lever arm `r`: the linear velocity picks up `p` through the inverse
/// mass, the angular velocity picks up `r x p` through the world inverse
/// inertia. A non-dynamic body is left exactly as it was.
pub open spec fn body_vel_kicked_s(b: Body, p: Vec3, r: Vec3) -> Body {
    if b.rigid_body != RigidBody::Dynamic {
        b
    } else {
        Body {
            lin_vel: v3_add(b.lin_vel, crate::vec3::v3_scale(p, b.mass.inverse)),
            ang_vel: v3_add(
                b.ang_vel,
                crate::mat3::m3_mul_vec(inv_inertia_world_s(b), crate::vec3::v3_cross(r, p)),
            ),
            ..b
        }
    }
}

impl Body {
    /// Applies a velocity-level impulse at a lever arm; see
    /// [`body_vel_kicked_s`]. Non-dynamic bodies are never written.
    pub fn apply_vel_impulse(&mut self, p: &Vec3, r: &Vec3)
        ensures
            *final(self) == body_vel_kicked_s(*old(self), *p, *r),
            old(self).rigid_body != RigidBody::Dynamic ==> *final(self) == *old(self),
    {
        if self.rigid_body.is_dynamic() {
            self.lin_vel = self.lin_vel.plus(&p.scaled(self.mass.inverse()));
            let dw = self.inv_inertia_world().mul_vec(&r.cross(p));
            self.ang_vel = self.ang_vel.plus(&dw);
        }
    }
}

/// The generalized inverse mass seen by a constraint along `n` at lever
/// arm `r`.
pub open spec fn gen_inv_mass_s(b: Body, r: Vec3, n: Vec3) -> i64 {
    let rn = crate::vec3::v3_cross(r, n);
    sadd(inv_mass_s(b), crate::vec3::v3_dot(rn, crate::mat3::m3_mul_vec(inv_inertia_world_s(b), rn)))
}

/// The sum of two components stays within the machine range.
pub open spec fn sum_fits(a: i64, b: i64) -> bool {
    i64::MIN <= a + b <= i64::MAX
}

/// Every component sum of two vectors stays within the machine range.
pub open spec fn v3_sum_fits(a: Vec3, b: Vec3) -> bool {
    sum_fits(a.x, b.x) && sum_fits(a.y, b.y) && sum_fits(a.z, b.z)
}

/// Every entry sum of two matrices stays within the machine range.
pub open spec fn m3_sum_fits(a: Mat3, b: Mat3) -> bool {
    v3_sum_fits(a.r0, b.r0) && v3_sum_fits(a.r1, b.r1) && v3_sum_fits(a.r2, b.r2)
}

/// Mass aggregation law. Attaching colliders of masses `m1` and `m2` to a
/// body that had none yields the aggregate mass `m1 + m2`, whose stored
/// inverse is the pseudo-inverse of `m1 + m2`; and removing a collider's
/// contribution again restores the previous mass, inertia tensor and local
/// center of mass exactly, whenever the sums stay within the machine
/// range.
pub proof fn lemma_mass_aggregation(b: Body, p: ColliderMassProperties, m1: i64, m2: i64)
    requires
        sum_fits(m1, m2),
        sum_fits(b.mass.mass, p.mass.mass),
        m3_sum_fits(b.inertia.inertia, p.inertia.inertia),
        v3_sum_fits(b.local_com.0, p.local_center_of_mass.0),
    ensures
        sadd(sadd(0, m1), m2) == m1 + m2,
        mass_inverse_s(sadd(sadd(0, m1), m2)) == mass_inverse_s((m1 + m2) as i64),
        ssub(sadd(b.mass.mass, p.mass.mass), p.mass.mass) == b.mass.mass,
        m3_sub(m3_add(b.inertia.inertia, p.inertia.inertia), p.inertia.inertia)
            == b.inertia.inertia,
        v3_sub(v3_add(b.local_com.0, p.local_center_of_mass.0), p.local_center_of_mass.0)
            == b.local_com.0,
{
}

} // verus!
