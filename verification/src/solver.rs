//! The substep pipeline: position solving, velocity derivation, the
//! velocity pass, and the arena-level step that runs them in order.
//!
//! The passes are strictly sequential (Gauss-Seidel): each constraint's
//! correction is read by the next. A malformed constraint - one whose
//! body indices are out of range or equal, or whose limits are ill-formed
//! - is skipped for the pass; the rest of the solve proceeds, and no step
//! aborts mid-frame.

use vstd::prelude::*;
use crate::body::{inv_mass_s, Body};
use crate::broad_phase::{broad_phase, is_broad_phase_output, world_aabb, world_aabb_s};
use crate::components::{ColliderAabb, RigidBody, Shape};
use crate::contacts::{
    compute_contact, compute_contact_s, contact_position_solved_s, contact_velocity_solved_s,
    solve_contact_position, solve_contact_velocity, Contact,
};
use crate::fp::{fp_add, fp_div, fp_mul, sadd, sdiv, smul, FP_ONE};
use crate::integrator::integrate;
use crate::joints::{constrained_s, kind_wf, Joint, JointKind};
use crate::resources::{sub_dt, sub_dt_s, Gravity, NumPosIters, NumSubsteps};
use crate::rot::{q_conj, q_mul, q_vec, Rot};
use crate::vec3::{v3_add, v3_neg, v3_scale, v3_sub, Vec3};

verus! {

/// `b` differs from `a` at most in its motion state: kind, mass
/// properties, materials and external loads are untouched.
pub open spec fn same_but_motion(a: Body, b: Body) -> bool {
    b.rigid_body == a.rigid_body && b.external_force == a.external_force && b.external_torque
        == a.external_torque && b.restitution == a.restitution && b.friction == a.friction
        && b.mass == a.mass && b.inertia == a.inertia && b.local_com == a.local_com
}

/// `b` differs from `a` at most in its accumulated multipliers.
pub open spec fn same_but_lambda(a: Joint, b: Joint) -> bool {
    b.entity1 == a.entity1 && b.entity2 == a.entity2 && b.local_anchor1 == a.local_anchor1
        && b.local_anchor2 == a.local_anchor2 && b.compliance == a.compliance && b.damping_lin
        == a.damping_lin && b.damping_ang == a.damping_ang && b.kind == a.kind
}

/// Frame composition for bodies: two consecutive updates that each touch
/// only the motion state and never write a non-dynamic body compose to
/// one such update.
pub proof fn lemma_bodies_frame_composes(b0: Seq<Body>, b1: Seq<Body>, b2: Seq<Body>)
    requires
        b1.len() == b0.len(),
        b2.len() == b0.len(),
        forall|i: int| 0 <= i < b0.len() ==> same_but_motion(#[trigger] b0[i], b1[i]),
        forall|i: int|
            0 <= i < b0.len() && (#[trigger] b0[i]).rigid_body != RigidBody::Dynamic ==> b1[i]
                == b0[i],
        forall|i: int| 0 <= i < b0.len() ==> same_but_motion(#[trigger] b1[i], b2[i]),
        forall|i: int|
            0 <= i < b0.len() && (#[trigger] b1[i]).rigid_body != RigidBody::Dynamic ==> b2[i]
                == b1[i],
    ensures
        forall|i: int| 0 <= i < b0.len() ==> same_but_motion(#[trigger] b0[i], b2[i]),
        forall|i: int|
            0 <= i < b0.len() && (#[trigger] b0[i]).rigid_body != RigidBody::Dynamic ==> b2[i]
                == b0[i],
{
    assert forall|i: int| 0 <= i < b0.len() implies same_but_motion(#[trigger] b0[i], b2[i]) && (
    b0[i].rigid_body != RigidBody::Dynamic ==> b2[i] == b0[i]) by {
        assert(same_but_motion(b0[i], b1[i]));
        assert(same_but_motion(b1[i], b2[i]));
    }
}

/// Frame composition for joints: two consecutive updates that each touch
/// only the multipliers compose to one such update.
pub proof fn lemma_joints_frame_composes(j0: Seq<Joint>, j1: Seq<Joint>, j2: Seq<Joint>)
    requires
        j1.len() == j0.len(),
        j2.len() == j0.len(),
        forall|k: int| 0 <= k < j0.len() ==> same_but_lambda(#[trigger] j0[k], j1[k]),
        forall|k: int| 0 <= k < j0.len() ==> same_but_lambda(#[trigger] j1[k], j2[k]),
    ensures
        forall|k: int| 0 <= k < j0.len() ==> same_but_lambda(#[trigger] j0[k], j2[k]),
{
    assert forall|k: int| 0 <= k < j0.len() implies same_but_lambda(#[trigger] j0[k], j2[k]) by {
        assert(same_but_lambda(j0[k], j1[k]));
        assert(same_but_lambda(j1[k], j2[k]));
    }
}

/// Integration touches only the motion state and skips non-dynamic
/// bodies.
pub proof fn lemma_integrated_preserves(b: Body, g: Vec3, dt: i64)
    ensures
        same_but_motion(b, crate::integrator::integrated_body_s(b, g, dt)),
        b.rigid_body != RigidBody::Dynamic ==> crate::integrator::integrated_body_s(b, g, dt)
            == b,
{
    reveal(crate::integrator::integrated_body_s);
}

/// Velocity derivation touches only the motion state and skips
/// non-dynamic bodies.
pub proof fn lemma_velocity_updated_preserves(b: Body, dt: i64)
    ensures
        same_but_motion(b, velocity_updated_body_s(b, dt)),
        b.rigid_body != RigidBody::Dynamic ==> velocity_updated_body_s(b, dt) == b,
{
    reveal(velocity_updated_body_s);
}

/// Whether a joint's limits are well-formed (see [`kind_wf`]).
pub fn kind_ok(k: &JointKind) -> (r: bool)
    ensures
        r == kind_wf(*k),
{
    match *k {
        JointKind::Revolute { aligned_axis, angle_limit } => match angle_limit {
            Some(l) => -crate::trig::PI_FP <= l.min && l.min <= l.max && l.max
                <= crate::trig::PI_FP,
            None => true,
        },
        _ => true,
    }
}

/// A dynamic body's velocities derived from its position change over the
/// substep: `v = (pos - prev_pos) / dt`, and the angular velocity from
/// the quaternion delta `rot * prev_rot^-1` (twice its vector part over
/// `dt`, sign-corrected). This derivation is what makes the scheme
/// implicit: however stiff the constraints, the velocity follows the
/// solved positions. A non-dynamic body is returned exactly as it was.
#[verifier::opaque]
pub open spec fn velocity_updated_body_s(b: Body, sub_dt: i64) -> Body {
    if b.rigid_body != RigidBody::Dynamic {
        b
    } else {
        let inv_dt = sdiv(FP_ONE, sub_dt);
        let v = v3_scale(v3_sub(b.pos, b.prev_pos), inv_dt);
        let dq = q_mul(b.rot, q_conj(b.prev_rot));
        let two_inv = sadd(inv_dt, inv_dt);
        let wv = if dq.w >= 0 {
            v3_scale(q_vec(dq), two_inv)
        } else {
            v3_neg(v3_scale(q_vec(dq), two_inv))
        };
        Body { lin_vel: v, ang_vel: wv, ..b }
    }
}

/// Derives one body's velocities from its position change.
pub fn update_velocity_body(b: &mut Body, sub_dt: i64)
    ensures
        *final(b) == velocity_updated_body_s(*old(b), sub_dt),
        old(b).rigid_body != RigidBody::Dynamic ==> *final(b) == *old(b),
{
    proof {
        reveal(velocity_updated_body_s);
    }
    if b.rigid_body.is_dynamic() {
        let inv_dt = fp_div(FP_ONE, sub_dt);
        let v = b.pos.minus(&b.prev_pos).scaled(inv_dt);
        let dq = b.rot.mul(&b.prev_rot.inv());
        let two_inv = fp_add(inv_dt, inv_dt);
        let qv = Vec3 { x: dq.x, y: dq.y, z: dq.z };
        let wv = if dq.w >= 0 {
            qv.scaled(two_inv)
        } else {
            qv.scaled(two_inv).neg()
        };
        b.lin_vel = v;
        b.ang_vel = wv;
    }
}

/// Derives every body's velocities from its position change.
pub fn update_velocities(bodies: &mut Vec<Body>, sub_dt: i64)
    ensures
        final(bodies).len() == old(bodies).len(),
        forall|i: int|
            0 <= i < old(bodies).len() ==> final(bodies)@[i] == velocity_updated_body_s(
                #[trigger] old(bodies)@[i],
                sub_dt,
            ),
        forall|i: int|
            0 <= i < old(bodies).len() && (#[trigger] old(bodies)@[i]).rigid_body
                != RigidBody::Dynamic ==> final(bodies)@[i] == old(bodies)@[i],
{
    proof {
        reveal(velocity_updated_body_s);
    }
    let n = bodies.len();
    let mut i: usize = 0;
    while i < n
        invariant
            n == bodies.len(),
            bodies.len() == old(bodies).len(),
            i <= n,
            forall|k: int|
                0 <= k < i ==> bodies@[k] == velocity_updated_body_s(
                    #[trigger] old(bodies)@[k],
                    sub_dt,
                ),
            forall|k: int| i <= k < n ==> bodies@[k] == #[trigger] old(bodies)@[k],
        decreases n - i,
    {
        let mut b = bodies[i];
        update_velocity_body(&mut b, sub_dt);
        bodies.set(i, b);
        i = i + 1;
    }
}

/// The contact record a candidate pair contributes: the computed
/// geometry with a fresh multiplier, or nothing when either body has no
/// shape or the shapes do not overlap.
pub open spec fn contact_of_pair_s(
    bodies: Seq<Body>,
    shapes: Seq<Option<Shape>>,
    pair: (usize, usize),
) -> Option<Contact> {
    match (shapes[pair.0 as int], shapes[pair.1 as int]) {
        (Option::Some(s1), Option::Some(s2)) => {
            match compute_contact_s(
                s1,
                bodies[pair.0 as int].pos,
                bodies[pair.0 as int].rot,
                s2,
                bodies[pair.1 as int].pos,
                bodies[pair.1 as int].rot,
            ) {
                Option::Some(g) => Option::Some(
                    Contact {
                        entity1: pair.0,
                        entity2: pair.1,
                        r1: g.r1,
                        r2: g.r2,
                        normal: g.normal,
                        penetration: g.penetration,
                        normal_lambda: 0,
                    },
                ),
                Option::None => Option::None,
            }
        },
        _ => Option::None,
    }
}

/// The contacts of all candidate pairs, in pair order.
pub open spec fn contacts_of_pairs_s(
    bodies: Seq<Body>,
    shapes: Seq<Option<Shape>>,
    pairs: Seq<(usize, usize)>,
) -> Seq<Contact>
    decreases pairs.len(),
{
    if pairs.len() == 0 {
        Seq::empty()
    } else {
        let rest = contacts_of_pairs_s(bodies, shapes, pairs.drop_last());
        match contact_of_pair_s(bodies, shapes, pairs.last()) {
            Option::Some(c) => rest.push(c),
            Option::None => rest,
        }
    }
}

/// Builds the contacts of the candidate pairs whose shapes overlap this
/// substep, with fresh multiplier accumulators.
pub fn generate_contacts(
    bodies: &Vec<Body>,
    shapes: &Vec<Option<Shape>>,
    pairs: &Vec<(usize, usize)>,
) -> (r: Vec<Contact>)
    requires
        shapes.len() == bodies.len(),
        forall|k: int|
            0 <= k < pairs.len() ==> (#[trigger] pairs@[k]).0 < pairs@[k].1 && pairs@[k].1
                < bodies.len(),
    ensures
        r@ == contacts_of_pairs_s(bodies@, shapes@, pairs@),
        forall|k: int|
            0 <= k < r.len() ==> (#[trigger] r@[k]).entity1 < bodies.len() && r@[k].entity2
                < bodies.len() && r@[k].entity1 != r@[k].entity2 && r@[k].normal_lambda == 0,
{
    let mut r: Vec<Contact> = Vec::new();
    let mut k: usize = 0;
    while k < pairs.len()
        invariant
            shapes.len() == bodies.len(),
            k <= pairs.len(),
            r@ == contacts_of_pairs_s(bodies@, shapes@, pairs@.take(k as int)),
            forall|q: int|
                0 <= q < pairs.len() ==> (#[trigger] pairs@[q]).0 < pairs@[q].1 && pairs@[q].1
                    < bodies.len(),
            forall|q: int|
                0 <= q < r.len() ==> (#[trigger] r@[q]).entity1 < bodies.len() && r@[q].entity2
                    < bodies.len() && r@[q].entity1 != r@[q].entity2 && r@[q].normal_lambda == 0,
        decreases pairs.len() - k,
    {
        proof {
            assert(pairs@.take(k as int + 1).drop_last() =~= pairs@.take(k as int));
            assert(pairs@.take(k as int + 1).last() == pairs@[k as int]);
        }
        let (i, j) = pairs[k];
        let si = shapes[i];
        let sj = shapes[j];
        match (si, sj) {
            (Some(s1), Some(s2)) => {
                let b1 = bodies[i];
                let b2 = bodies[j];
                match compute_contact(&s1, &b1.pos, &b1.rot, &s2, &b2.pos, &b2.rot) {
                    Some(g) => {
                        r.push(
                            Contact {
                                entity1: i,
                                entity2: j,
                                r1: g.r1,
                                r2: g.r2,
                                normal: g.normal,
                                penetration: g.penetration,
                                normal_lambda: 0,
                            },
                        );
                    },
                    None => {},
                }
            },
            _ => {},
        }
        k = k + 1;
    }
    proof {
        assert(pairs@.take(pairs@.len() as int) =~= pairs@);
    }
    r
}

/// The first `k` contacts of a position pass applied in order: each
/// in-range contact is solved against its two bodies, and the updated
/// contact and bodies written back (an out-of-range or self pair is left
/// alone).
pub open spec fn contacts_pass_upto_s(
    bodies0: Seq<Body>,
    contacts0: Seq<Contact>,
    k: nat,
) -> (Seq<Body>, Seq<Contact>)
    decreases k,
{
    if k == 0 {
        (bodies0, contacts0)
    } else {
        let prev = contacts_pass_upto_s(bodies0, contacts0, (k - 1) as nat);
        let bodies = prev.0;
        let contacts = prev.1;
        let i = k - 1;
        if i < contacts.len() {
            let c = contacts[i as int];
            let e1 = c.entity1 as int;
            let e2 = c.entity2 as int;
            if 0 <= e1 < bodies.len() && 0 <= e2 < bodies.len() && e1 != e2 {
                let solved = contact_position_solved_s(c, bodies[e1], bodies[e2]);
                (
                    bodies.update(e1, solved.1).update(e2, solved.2),
                    contacts.update(i as int, solved.0),
                )
            } else {
                prev
            }
        } else {
            prev
        }
    }
}

/// The first `k` joints of a position pass applied in order: each
/// well-formed in-range joint is constrained against its two bodies (a
/// malformed joint is skipped).
pub open spec fn joints_pass_upto_s(
    bodies0: Seq<Body>,
    joints0: Seq<Joint>,
    sub_dt: i64,
    k: nat,
) -> (Seq<Body>, Seq<Joint>)
    decreases k,
{
    if k == 0 {
        (bodies0, joints0)
    } else {
        let prev = joints_pass_upto_s(bodies0, joints0, sub_dt, (k - 1) as nat);
        let bodies = prev.0;
        let joints = prev.1;
        let i = k - 1;
        if i < joints.len() {
            let j = joints[i as int];
            let e1 = j.entity1 as int;
            let e2 = j.entity2 as int;
            if 0 <= e1 < bodies.len() && 0 <= e2 < bodies.len() && e1 != e2 && kind_wf(j.kind) {
                let solved = constrained_s(j, bodies[e1], bodies[e2], sub_dt);
                (
                    bodies.update(e1, solved.1).update(e2, solved.2),
                    joints.update(i as int, solved.0),
                )
            } else {
                prev
            }
        } else {
            prev
        }
    }
}

/// One whole position pass: all contacts in order, then all joints.
pub open spec fn positions_solved_s(
    bodies: Seq<Body>,
    joints: Seq<Joint>,
    contacts: Seq<Contact>,
    sub_dt: i64,
) -> (Seq<Body>, Seq<Joint>, Seq<Contact>) {
    let cp = contacts_pass_upto_s(bodies, contacts, contacts.len());
    let jp = joints_pass_upto_s(cp.0, joints, sub_dt, joints.len());
    (jp.0, jp.1, cp.1)
}

/// One position-solving pass over all contacts, then all joints. Bodies
/// change only in their motion state; non-dynamic bodies are never
/// written; joints change only in their multipliers; a malformed joint
/// or contact is skipped.
pub fn solve_positions(
    bodies: &mut Vec<Body>,
    joints: &mut Vec<Joint>,
    contacts: &mut Vec<Contact>,
    sub_dt: i64,
)
    requires
        forall|k: int|
            0 <= k < old(contacts).len() ==> (#[trigger] old(contacts)@[k]).entity1 < old(
                bodies,
            ).len() && old(contacts)@[k].entity2 < old(bodies).len() && old(
                contacts,
            )@[k].entity1 != old(contacts)@[k].entity2,
    ensures
        (final(bodies)@, final(joints)@, final(contacts)@) == positions_solved_s(
            old(bodies)@,
            old(joints)@,
            old(contacts)@,
            sub_dt,
        ),
        final(bodies).len() == old(bodies).len(),
        final(joints).len() == old(joints).len(),
        final(contacts).len() == old(contacts).len(),
        forall|i: int|
            0 <= i < old(bodies).len() ==> same_but_motion(
                #[trigger] old(bodies)@[i],
                final(bodies)@[i],
            ),
        forall|i: int|
            0 <= i < old(bodies).len() && (#[trigger] old(bodies)@[i]).rigid_body
                != RigidBody::Dynamic ==> final(bodies)@[i] == old(bodies)@[i],
        forall|k: int|
            0 <= k < old(joints).len() ==> same_but_lambda(
                #[trigger] old(joints)@[k],
                final(joints)@[k],
            ),
        forall|k: int|
            0 <= k < old(contacts).len() ==> (#[trigger] final(contacts)@[k]).entity1 == old(
                contacts,
            )@[k].entity1 && final(contacts)@[k].entity2 == old(contacts)@[k].entity2,
{
    let nb = bodies.len();
    let mut k: usize = 0;
    while k < contacts.len()
        invariant
            nb == bodies.len(),
            bodies.len() == old(bodies).len(),
            joints@ == old(joints)@,
            contacts.len() == old(contacts).len(),
            k <= contacts.len(),
            (bodies@, contacts@) == contacts_pass_upto_s(old(bodies)@, old(contacts)@, k as nat),
            forall|q: int|
                0 <= q < old(contacts).len() ==> (#[trigger] contacts@[q]).entity1 == old(
                    contacts,
                )@[q].entity1 && contacts@[q].entity2 == old(contacts)@[q].entity2,
            forall|q: int|
                0 <= q < old(contacts).len() ==> (#[trigger] old(contacts)@[q]).entity1 < nb
                    && old(contacts)@[q].entity2 < nb && old(contacts)@[q].entity1 != old(
                    contacts,
                )@[q].entity2,
            forall|i: int|
                0 <= i < old(bodies).len() ==> same_but_motion(
                    #[trigger] old(bodies)@[i],
                    bodies@[i],
                ),
            forall|i: int|
                0 <= i < old(bodies).len() && (#[trigger] old(bodies)@[i]).rigid_body
                    != RigidBody::Dynamic ==> bodies@[i] == old(bodies)@[i],
        decreases contacts.len() - k,
    {
        let c = contacts[k];
        let e1 = c.entity1;
        let e2 = c.entity2;
        let mut b1 = bodies[e1];
        let mut b2 = bodies[e2];
        let mut cc = c;
        solve_contact_position(&mut cc, &mut b1, &mut b2, sub_dt);
        contacts.set(k, cc);
        bodies.set(e1, b1);
        bodies.set(e2, b2);
        proof {
            assert((bodies@, contacts@) == contacts_pass_upto_s(
                old(bodies)@,
                old(contacts)@,
                (k + 1) as nat,
            ));
        }
        k = k + 1;
    }
    let ghost bodies_cp = bodies@;
    let ghost contacts_cp = contacts@;
    proof {
        assert((bodies_cp, contacts_cp) == contacts_pass_upto_s(
            old(bodies)@,
            old(contacts)@,
            old(contacts)@.len(),
        ));
    }
    let mut j: usize = 0;
    while j < joints.len()
        invariant
            nb == bodies.len(),
            bodies.len() == old(bodies).len(),
            joints.len() == old(joints).len(),
            contacts.len() == old(contacts).len(),
            j <= joints.len(),
            contacts@ == contacts_cp,
            (bodies_cp, contacts_cp) == contacts_pass_upto_s(
                old(bodies)@,
                old(contacts)@,
                old(contacts)@.len(),
            ),
            (bodies@, joints@) == joints_pass_upto_s(bodies_cp, old(joints)@, sub_dt, j as nat),
            forall|q: int|
                0 <= q < old(contacts).len() ==> (#[trigger] contacts@[q]).entity1 == old(
                    contacts,
                )@[q].entity1 && contacts@[q].entity2 == old(contacts)@[q].entity2,
            forall|q: int|
                0 <= q < old(joints).len() ==> same_but_lambda(
                    #[trigger] old(joints)@[q],
                    joints@[q],
                ),
            forall|i: int|
                0 <= i < old(bodies).len() ==> same_but_motion(
                    #[trigger] old(bodies)@[i],
                    bodies@[i],
                ),
            forall|i: int|
                0 <= i < old(bodies).len() && (#[trigger] old(bodies)@[i]).rigid_body
                    != RigidBody::Dynamic ==> bodies@[i] == old(bodies)@[i],
        decreases joints.len() - j,
    {
        let jt = joints[j];
        let e1 = jt.entity1;
        let e2 = jt.entity2;
        if e1 < bodies.len() && e2 < bodies.len() && e1 != e2 && kind_ok(&jt.kind) {
            let mut b1 = bodies[e1];
            let mut b2 = bodies[e2];
            let mut jj = jt;
            jj.constrain(&mut b1, &mut b2, sub_dt);
            joints.set(j, jj);
            bodies.set(e1, b1);
            bodies.set(e2, b2);
        }
        proof {
            assert((bodies@, joints@) == joints_pass_upto_s(
                bodies_cp,
                old(joints)@,
                sub_dt,
                (j + 1) as nat,
            ));
        }
        j = j + 1;
    }
}

/// The velocity pass for one joint, as a value: the relative linear and
/// angular velocity across the joint decays by the factor
/// `min(damping * dt, 1)` (so damping acts exponentially over the
/// substeps), shared between the two bodies in proportion to their
/// effective inverse masses; a pair of non-dynamic bodies (total inverse
/// mass zero) is left as it is.
#[verifier::opaque]
pub open spec fn joint_damped_s(j: Joint, b1: Body, b2: Body, sub_dt: i64) -> (Body, Body) {
    let w1 = inv_mass_s(b1);
    let w2 = inv_mass_s(b2);
    let w_sum = sadd(w1, w2);
    if w_sum > 0 {
        let tl = smul(j.damping_lin, sub_dt);
        let fl = if tl > FP_ONE {
            FP_ONE
        } else {
            tl
        };
        let dv = v3_scale(v3_sub(b2.lin_vel, b1.lin_vel), fl);
        let ta = smul(j.damping_ang, sub_dt);
        let fa = if ta > FP_ONE {
            FP_ONE
        } else {
            ta
        };
        let dw = v3_scale(v3_sub(b2.ang_vel, b1.ang_vel), fa);
        let b1a = if b1.rigid_body == RigidBody::Dynamic {
            let share = sdiv(w1, w_sum);
            Body {
                lin_vel: v3_add(b1.lin_vel, v3_scale(dv, share)),
                ang_vel: v3_add(b1.ang_vel, v3_scale(dw, share)),
                ..b1
            }
        } else {
            b1
        };
        let b2a = if b2.rigid_body == RigidBody::Dynamic {
            let share = sdiv(w2, w_sum);
            Body {
                lin_vel: v3_sub(b2.lin_vel, v3_scale(dv, share)),
                ang_vel: v3_sub(b2.ang_vel, v3_scale(dw, share)),
                ..b2
            }
        } else {
            b2
        };
        (b1a, b2a)
    } else {
        (b1, b2)
    }
}

/// The velocity pass for one joint; see [`joint_damped_s`]. Only
/// velocities change; a non-dynamic body is never written.
pub fn damp_joint_velocity(jt: &Joint, body1: &mut Body, body2: &mut Body, sub_dt: i64)
    ensures
        (*final(body1), *final(body2)) == joint_damped_s(*jt, *old(body1), *old(body2), sub_dt),
        *final(body1) == (Body {
            lin_vel: final(body1).lin_vel,
            ang_vel: final(body1).ang_vel,
            ..*old(body1)
        }),
        *final(body2) == (Body {
            lin_vel: final(body2).lin_vel,
            ang_vel: final(body2).ang_vel,
            ..*old(body2)
        }),
        old(body1).rigid_body != RigidBody::Dynamic ==> *final(body1) == *old(body1),
        old(body2).rigid_body != RigidBody::Dynamic ==> *final(body2) == *old(body2),
{
    proof {
        reveal(joint_damped_s);
    }
    let w1 = body1.inv_mass_eff();
    let w2 = body2.inv_mass_eff();
    let w_sum = fp_add(w1, w2);
    if w_sum > 0 {
        let tl = fp_mul(jt.damping_lin, sub_dt);
        let fl: i64 = if tl > FP_ONE {
            FP_ONE
        } else {
            tl
        };
        let dv = body2.lin_vel.minus(&body1.lin_vel).scaled(fl);
        let ta = fp_mul(jt.damping_ang, sub_dt);
        let fa: i64 = if ta > FP_ONE {
            FP_ONE
        } else {
            ta
        };
        let dw = body2.ang_vel.minus(&body1.ang_vel).scaled(fa);
        if body1.rigid_body.is_dynamic() {
            let share = fp_div(w1, w_sum);
            body1.lin_vel = body1.lin_vel.plus(&dv.scaled(share));
            body1.ang_vel = body1.ang_vel.plus(&dw.scaled(share));
        }
        if body2.rigid_body.is_dynamic() {
            let share = fp_div(w2, w_sum);
            body2.lin_vel = body2.lin_vel.minus(&dv.scaled(share));
            body2.ang_vel = body2.ang_vel.minus(&dw.scaled(share));
        }
    }
}

/// The first `k` contacts of the velocity pass applied in order (an
/// out-of-range or self pair is skipped).
pub open spec fn contacts_velocity_upto_s(
    bodies0: Seq<Body>,
    contacts: Seq<Contact>,
    sub_dt: i64,
    k: nat,
) -> Seq<Body>
    decreases k,
{
    if k == 0 {
        bodies0
    } else {
        let bodies = contacts_velocity_upto_s(bodies0, contacts, sub_dt, (k - 1) as nat);
        let i = k - 1;
        if i < contacts.len() {
            let c = contacts[i as int];
            let e1 = c.entity1 as int;
            let e2 = c.entity2 as int;
            if 0 <= e1 < bodies.len() && 0 <= e2 < bodies.len() && e1 != e2 {
                let kicked = contact_velocity_solved_s(c, bodies[e1], bodies[e2], sub_dt);
                bodies.update(e1, kicked.0).update(e2, kicked.1)
            } else {
                bodies
            }
        } else {
            bodies
        }
    }
}

/// The first `k` joints of the damping pass applied in order (an
/// out-of-range or self pair is skipped).
pub open spec fn joints_damping_upto_s(
    bodies0: Seq<Body>,
    joints: Seq<Joint>,
    sub_dt: i64,
    k: nat,
) -> Seq<Body>
    decreases k,
{
    if k == 0 {
        bodies0
    } else {
        let bodies = joints_damping_upto_s(bodies0, joints, sub_dt, (k - 1) as nat);
        let i = k - 1;
        if i < joints.len() {
            let j = joints[i as int];
            let e1 = j.entity1 as int;
            let e2 = j.entity2 as int;
            if 0 <= e1 < bodies.len() && 0 <= e2 < bodies.len() && e1 != e2 {
                let damped = joint_damped_s(j, bodies[e1], bodies[e2], sub_dt);
                bodies.update(e1, damped.0).update(e2, damped.1)
            } else {
                bodies
            }
        } else {
            bodies
        }
    }
}

/// One whole velocity pass: restitution and friction for every contact in
/// order, then damping for every joint.
pub open spec fn velocities_solved_s(
    bodies: Seq<Body>,
    joints: Seq<Joint>,
    contacts: Seq<Contact>,
    sub_dt: i64,
) -> Seq<Body> {
    joints_damping_upto_s(
        contacts_velocity_upto_s(bodies, contacts, sub_dt, contacts.len()),
        joints,
        sub_dt,
        joints.len(),
    )
}

/// The velocity pass: restitution and friction for every contact, then
/// damping for every joint. Bodies change only in their velocities;
/// non-dynamic bodies are never written.
pub fn solve_velocities(
    bodies: &mut Vec<Body>,
    joints: &Vec<Joint>,
    contacts: &Vec<Contact>,
    sub_dt: i64,
)
    requires
        forall|k: int|
            0 <= k < contacts.len() ==> (#[trigger] contacts@[k]).entity1 < old(bodies).len()
                && contacts@[k].entity2 < old(bodies).len() && contacts@[k].entity1
                != contacts@[k].entity2,
    ensures
        final(bodies)@ == velocities_solved_s(old(bodies)@, joints@, contacts@, sub_dt),
        final(bodies).len() == old(bodies).len(),
        forall|i: int|
            0 <= i < old(bodies).len() ==> same_but_motion(
                #[trigger] old(bodies)@[i],
                final(bodies)@[i],
            ),
        forall|i: int|
            0 <= i < old(bodies).len() && (#[trigger] old(bodies)@[i]).rigid_body
                != RigidBody::Dynamic ==> final(bodies)@[i] == old(bodies)@[i],
{
    let mut k: usize = 0;
    while k < contacts.len()
        invariant
            bodies.len() == old(bodies).len(),
            k <= contacts.len(),
            bodies@ == contacts_velocity_upto_s(old(bodies)@, contacts@, sub_dt, k as nat),
            forall|q: int|
                0 <= q < contacts.len() ==> (#[trigger] contacts@[q]).entity1 < old(bodies).len()
                    && contacts@[q].entity2 < old(bodies).len() && contacts@[q].entity1
                    != contacts@[q].entity2,
            forall|i: int|
                0 <= i < old(bodies).len() ==> same_but_motion(
                    #[trigger] old(bodies)@[i],
                    bodies@[i],
                ),
            forall|i: int|
                0 <= i < old(bodies).len() && (#[trigger] old(bodies)@[i]).rigid_body
                    != RigidBody::Dynamic ==> bodies@[i] == old(bodies)@[i],
        decreases contacts.len() - k,
    {
        let c = contacts[k];
        let mut b1 = bodies[c.entity1];
        let mut b2 = bodies[c.entity2];
        solve_contact_velocity(&c, &mut b1, &mut b2, sub_dt);
        bodies.set(c.entity1, b1);
        bodies.set(c.entity2, b2);
        proof {
            assert(bodies@ == contacts_velocity_upto_s(
                old(bodies)@,
                contacts@,
                sub_dt,
                (k + 1) as nat,
            ));
        }
        k = k + 1;
    }
    let ghost bodies_cv = bodies@;
    let mut j: usize = 0;
    while j < joints.len()
        invariant
            bodies.len() == old(bodies).len(),
            j <= joints.len(),
            bodies_cv == contacts_velocity_upto_s(
                old(bodies)@,
                contacts@,
                sub_dt,
                contacts@.len(),
            ),
            bodies@ == joints_damping_upto_s(bodies_cv, joints@, sub_dt, j as nat),
            forall|i: int|
                0 <= i < old(bodies).len() ==> same_but_motion(
                    #[trigger] old(bodies)@[i],
                    bodies@[i],
                ),
            forall|i: int|
                0 <= i < old(bodies).len() && (#[trigger] old(bodies)@[i]).rigid_body
                    != RigidBody::Dynamic ==> bodies@[i] == old(bodies)@[i],
        decreases joints.len() - j,
    {
        let jt = joints[j];
        if jt.entity1 < bodies.len() && jt.entity2 < bodies.len() && jt.entity1 != jt.entity2 {
            let mut b1 = bodies[jt.entity1];
            let mut b2 = bodies[jt.entity2];
            damp_joint_velocity(&jt, &mut b1, &mut b2, sub_dt);
            bodies.set(jt.entity1, b1);
            bodies.set(jt.entity2, b2);
        }
        proof {
            assert(bodies@ == joints_damping_upto_s(bodies_cv, joints@, sub_dt, (j + 1) as nat));
        }
        j = j + 1;
    }
}

/// The arena of bodies, their optional collider shapes, and the joints
/// between them. Ownership is explicit: the solver takes this record,
/// never a hidden global store.
pub struct World {
    /// All bodies, addressed by index.
    pub bodies: Vec<Body>,
    /// The collider shape of each body, if it has one (parallel to
    /// `bodies`).
    pub shapes: Vec<Option<Shape>>,
    /// All joints.
    pub joints: Vec<Joint>,
}

impl World {
    /// One shape slot per body.
    pub open spec fn wf(&self) -> bool {
        self.shapes.len() == self.bodies.len()
    }

    /// An empty arena.
    pub fn new() -> (r: World)
        ensures
            r.wf(),
            r.bodies.len() == 0,
            r.joints.len() == 0,
    {
        World { bodies: Vec::new(), shapes: Vec::new(), joints: Vec::new() }
    }

    /// Adds a body (with its collider shape, if any) and returns its
    /// index.
    pub fn add_body(&mut self, body: Body, shape: Option<Shape>) -> (idx: usize)
        requires
            old(self).wf(),
        ensures
            final(self).wf(),
            idx == old(self).bodies.len(),
            final(self).bodies@ == old(self).bodies@.push(body),
            final(self).shapes@ == old(self).shapes@.push(shape),
            final(self).joints == old(self).joints,
    {
        let idx = self.bodies.len();
        self.bodies.push(body);
        self.shapes.push(shape);
        idx
    }

    /// Adds a joint and returns its index.
    pub fn add_joint(&mut self, joint: Joint) -> (idx: usize)
        ensures
            idx == old(self).joints.len(),
            final(self).joints@ == old(self).joints@.push(joint),
            final(self).bodies == old(self).bodies,
            final(self).shapes == old(self).shapes,
    {
        let idx = self.joints.len();
        self.joints.push(joint);
        idx
    }
}

/// The broad-phase box of one body: its shape's world box, or an empty
/// box (that overlaps nothing real) when it has no collider.
pub open spec fn body_aabb_s(b: Body, shape: Option<Shape>) -> ColliderAabb {
    match shape {
        Option::Some(sh) => world_aabb_s(sh, b.pos, b.rot),
        Option::None => ColliderAabb {
            mins: Vec3 { x: i64::MAX, y: i64::MAX, z: i64::MAX },
            maxs: Vec3 { x: i64::MIN, y: i64::MIN, z: i64::MIN },
        },
    }
}

/// The broad-phase boxes of the whole arena.
pub open spec fn world_aabbs_s(bodies: Seq<Body>, shapes: Seq<Option<Shape>>) -> Seq<
    ColliderAabb,
> {
    Seq::new(bodies.len(), |i: int| body_aabb_s(bodies[i], shapes[i]))
}

/// The kinds of the whole arena.
pub open spec fn body_kinds_s(bodies: Seq<Body>) -> Seq<RigidBody> {
    bodies.map_values(|b: Body| b.rigid_body)
}

/// `k` substeps applied in sequence over a fixed candidate-pair list.
pub open spec fn substeps_fold_s(
    bodies: Seq<Body>,
    shapes: Seq<Option<Shape>>,
    joints: Seq<Joint>,
    pairs: Seq<(usize, usize)>,
    g: Vec3,
    pos_iters: nat,
    dt: i64,
    k: nat,
) -> (Seq<Body>, Seq<Joint>)
    decreases k,
{
    if k == 0 {
        (bodies, joints)
    } else {
        let prev = substeps_fold_s(bodies, shapes, joints, pairs, g, pos_iters, dt, (k - 1) as nat);
        substep_s(prev.0, shapes, prev.1, pairs, g, pos_iters, dt)
    }
}

/// One whole fixed step relates an old arena state to a new one: for the
/// (unique) candidate-pair list of the old state's boxes and kinds, the
/// new bodies and joints are the configured number of substeps folded
/// over the old ones at the substep timestep.
#[verifier::opaque]
pub open spec fn is_physics_step(
    bodies0: Seq<Body>,
    shapes: Seq<Option<Shape>>,
    joints0: Seq<Joint>,
    g: Vec3,
    substeps: u32,
    pos_iters: u32,
    bodies1: Seq<Body>,
    joints1: Seq<Joint>,
) -> bool {
    exists|pairs: Seq<(usize, usize)>|
        #[trigger] is_broad_phase_output(pairs, world_aabbs_s(bodies0, shapes), body_kinds_s(bodies0))
            && (bodies1, joints1) == substeps_fold_s(
            bodies0,
            shapes,
            joints0,
            pairs,
            g,
            pos_iters as nat,
            sub_dt_s(substeps),
            substeps as nat,
        )
}

/// One whole fixed step: the broad phase runs once, then each substep
/// integrates, regenerates contacts from the candidate pairs, runs the
/// configured number of position passes over contacts and joints (the
/// joints' multipliers having been reset), derives velocities from the
/// position change, and runs the velocity pass.
///
/// Bodies change only in their motion state; a static or kinematic body
/// is never altered, whatever joints or contacts touch it; shapes are
/// untouched and joints change only in their multipliers.
#[verifier::rlimit(100)]
pub fn physics_step(
    world: &mut World,
    gravity: &Gravity,
    substeps: &NumSubsteps,
    pos_iters: &NumPosIters,
)
    requires
        old(world).wf(),
        substeps.0 >= 1,
    ensures
        is_physics_step(
            old(world).bodies@,
            old(world).shapes@,
            old(world).joints@,
            gravity.0,
            substeps.0,
            pos_iters.0,
            final(world).bodies@,
            final(world).joints@,
        ),
        final(world).wf(),
        final(world).bodies.len() == old(world).bodies.len(),
        final(world).shapes == old(world).shapes,
        final(world).joints.len() == old(world).joints.len(),
        forall|i: int|
            0 <= i < old(world).bodies.len() ==> same_but_motion(
                #[trigger] old(world).bodies@[i],
                final(world).bodies@[i],
            ),
        forall|i: int|
            0 <= i < old(world).bodies.len() && (#[trigger] old(world).bodies@[i]).rigid_body
                != RigidBody::Dynamic ==> final(world).bodies@[i] == old(world).bodies@[i],
        forall|k: int|
            0 <= k < old(world).joints.len() ==> same_but_lambda(
                #[trigger] old(world).joints@[k],
                final(world).joints@[k],
            ),
{
    let dt = sub_dt(substeps);
    let n = world.bodies.len();

    // Prepare + broad phase, once per step.
    let mut aabbs: Vec<ColliderAabb> = Vec::new();
    let mut kinds: Vec<RigidBody> = Vec::new();
    let mut i: usize = 0;
    while i < n
        invariant
            n == world.bodies.len(),
            world.wf(),
            world.bodies@ == old(world).bodies@,
            world.shapes@ == old(world).shapes@,
            i <= n,
            aabbs.len() == i,
            kinds.len() == i,
            forall|q: int|
                0 <= q < i ==> aabbs@[q] == body_aabb_s(
                    #[trigger] world.bodies@[q],
                    world.shapes@[q],
                ),
            forall|q: int| 0 <= q < i ==> kinds@[q] == (#[trigger] world.bodies@[q]).rigid_body,
        decreases n - i,
    {
        let b = world.bodies[i];
        let aabb = match world.shapes[i] {
            Some(s) => world_aabb(&s, &b.pos, &b.rot),
            None => ColliderAabb {
                mins: Vec3 { x: i64::MAX, y: i64::MAX, z: i64::MAX },
                maxs: Vec3 { x: i64::MIN, y: i64::MIN, z: i64::MIN },
            },
        };
        aabbs.push(aabb);
        kinds.push(b.rigid_body);
        i = i + 1;
    }
    proof {
        assert(aabbs@ =~= world_aabbs_s(old(world).bodies@, old(world).shapes@));
        assert(kinds@ =~= body_kinds_s(old(world).bodies@));
    }
    let pairs = broad_phase(&aabbs, &kinds);

    let mut s: u32 = 0;
    while s < substeps.0
        invariant
            world.wf(),
            n == old(world).bodies.len(),
            world.bodies.len() == n,
            world.shapes == old(world).shapes,
            world.joints.len() == old(world).joints.len(),
            s <= substeps.0,
            dt == sub_dt_s(substeps.0),
            is_broad_phase_output(
                pairs@,
                world_aabbs_s(old(world).bodies@, old(world).shapes@),
                body_kinds_s(old(world).bodies@),
            ),
            (world.bodies@, world.joints@) == substeps_fold_s(
                old(world).bodies@,
                old(world).shapes@,
                old(world).joints@,
                pairs@,
                gravity.0,
                pos_iters.0 as nat,
                dt,
                s as nat,
            ),
            forall|q: int|
                0 <= q < pairs.len() ==> (#[trigger] pairs@[q]).0 < pairs@[q].1 && pairs@[q].1
                    < n,
            forall|i: int|
                0 <= i < n ==> same_but_motion(
                    #[trigger] old(world).bodies@[i],
                    world.bodies@[i],
                ),
            forall|i: int|
                0 <= i < n && (#[trigger] old(world).bodies@[i]).rigid_body
                    != RigidBody::Dynamic ==> world.bodies@[i] == old(world).bodies@[i],
            forall|k: int|
                0 <= k < old(world).joints.len() ==> same_but_lambda(
                    #[trigger] old(world).joints@[k],
                    world.joints@[k],
                ),
        decreases substeps.0 - s,
    {
        let ghost pre = world.bodies@;
        let ghost pre_joints = world.joints@;
        substep(world, gravity, &pairs, pos_iters.0, dt);
        proof {
            assert((world.bodies@, world.joints@) == substeps_fold_s(
                old(world).bodies@,
                old(world).shapes@,
                old(world).joints@,
                pairs@,
                gravity.0,
                pos_iters.0 as nat,
                dt,
                (s + 1) as nat,
            ));
            lemma_bodies_frame_composes(old(world).bodies@, pre, world.bodies@);
            lemma_joints_frame_composes(old(world).joints@, pre_joints, world.joints@);
        }
        s = s + 1;
    }
    proof {
        reveal(is_physics_step);
        // The computed pair list is the witness for the step relation.
        assert(is_broad_phase_output(
            pairs@,
            world_aabbs_s(old(world).bodies@, old(world).shapes@),
            body_kinds_s(old(world).bodies@),
        ) && (world.bodies@, world.joints@) == substeps_fold_s(
            old(world).bodies@,
            old(world).shapes@,
            old(world).joints@,
            pairs@,
            gravity.0,
            pos_iters.0 as nat,
            sub_dt_s(substeps.0),
            substeps.0 as nat,
        ));
    }
}

/// Every adjacent pair of arena states in the chain is related by one
/// whole fixed step.
pub open spec fn is_step_chain(
    states: Seq<(Seq<Body>, Seq<Joint>)>,
    shapes: Seq<Option<Shape>>,
    g: Vec3,
    substeps: u32,
    pos_iters: u32,
) -> bool {
    forall|i: int|
        0 < i < states.len() ==> is_physics_step(
            states[i - 1].0,
            shapes,
            states[i - 1].1,
            g,
            substeps,
            pos_iters,
            (#[trigger] states[i]).0,
            states[i].1,
        )
}

/// `n` whole fixed steps relate an old arena state to a new one: some
/// chain of `n + 1` states, each following from the one before per
/// [`is_physics_step`], starts at the old state and ends at the new.
#[verifier::opaque]
pub open spec fn stepped_n_s(
    bodies0: Seq<Body>,
    shapes: Seq<Option<Shape>>,
    joints0: Seq<Joint>,
    g: Vec3,
    substeps: u32,
    pos_iters: u32,
    bodies_n: Seq<Body>,
    joints_n: Seq<Joint>,
    n: nat,
) -> bool {
    exists|states: Seq<(Seq<Body>, Seq<Joint>)>|
        #[trigger] is_step_chain(states, shapes, g, substeps, pos_iters) && states.len() == n + 1
            && states.first() == (bodies0, joints0) && states.last() == (bodies_n, joints_n)
}

/// Zero steps relate a state to itself.
pub proof fn lemma_stepped_n_zero(
    bodies0: Seq<Body>,
    shapes: Seq<Option<Shape>>,
    joints0: Seq<Joint>,
    g: Vec3,
    substeps: u32,
    pos_iters: u32,
)
    ensures
        stepped_n_s(bodies0, shapes, joints0, g, substeps, pos_iters, bodies0, joints0, 0),
{
    reveal(stepped_n_s);
    let states = seq![(bodies0, joints0)];
    assert(is_step_chain(states, shapes, g, substeps, pos_iters) && states.len() == 1
        && states.first() == (bodies0, joints0) && states.last() == (bodies0, joints0));
}

/// Chaining one more step onto an `n`-step chain gives an `n + 1`-step
/// chain.
pub proof fn lemma_stepped_n_extend(
    bodies0: Seq<Body>,
    shapes: Seq<Option<Shape>>,
    joints0: Seq<Joint>,
    g: Vec3,
    substeps: u32,
    pos_iters: u32,
    bm: Seq<Body>,
    jm: Seq<Joint>,
    bn: Seq<Body>,
    jn: Seq<Joint>,
    n: nat,
)
    requires
        stepped_n_s(bodies0, shapes, joints0, g, substeps, pos_iters, bm, jm, n),
        is_physics_step(bm, shapes, jm, g, substeps, pos_iters, bn, jn),
    ensures
        stepped_n_s(bodies0, shapes, joints0, g, substeps, pos_iters, bn, jn, (n + 1) as nat),
{
    reveal(stepped_n_s);
    let states = choose|states: Seq<(Seq<Body>, Seq<Joint>)>|
        #[trigger] is_step_chain(states, shapes, g, substeps, pos_iters) && states.len() == n + 1
            && states.first() == (bodies0, joints0) && states.last() == (bm, jm);
    let states2 = states.push((bn, jn));
    assert forall|i: int|
        0 < i < states2.len() implies is_physics_step(
        states2[i - 1].0,
        shapes,
        states2[i - 1].1,
        g,
        substeps,
        pos_iters,
        (#[trigger] states2[i]).0,
        states2[i].1,
    ) by {
        if i < states.len() {
            assert(states2[i] == states[i] && states2[i - 1] == states[i - 1]);
        } else {
            assert(states2[i] == (bn, jn) && states2[i - 1] == states.last());
        }
    }
    assert(is_step_chain(states2, shapes, g, substeps, pos_iters) && states2.len() == n + 2
        && states2.first() == (bodies0, joints0) && states2.last() == (bn, jn));
}

/// Every joint with its accumulated multipliers cleared.
pub open spec fn reset_lambdas_s(joints: Seq<Joint>) -> Seq<Joint> {
    joints.map_values(|j: Joint| Joint { pos_lambda: 0, align_lambda: 0, ..j })
}

/// Clears every joint's accumulated multipliers.
pub fn reset_joint_lambdas(joints: &mut Vec<Joint>)
    ensures
        final(joints)@ == reset_lambdas_s(old(joints)@),
        final(joints).len() == old(joints).len(),
        forall|k: int|
            0 <= k < old(joints).len() ==> same_but_lambda(
                #[trigger] old(joints)@[k],
                final(joints)@[k],
            ),
{
    let mut j: usize = 0;
    while j < joints.len()
        invariant
            joints.len() == old(joints).len(),
            j <= joints.len(),
            forall|k: int|
                0 <= k < j ==> joints@[k] == (Joint {
                    pos_lambda: 0,
                    align_lambda: 0,
                    ..old(joints)@[k]
                }),
            forall|k: int| j <= k < joints.len() ==> joints@[k] == #[trigger] old(joints)@[k],
        decreases joints.len() - j,
    {
        let mut jt = joints[j];
        jt.reset_lambda();
        joints.set(j, jt);
        j = j + 1;
    }
    proof {
        assert(joints@ =~= reset_lambdas_s(old(joints)@));
    }
}

/// `iters` position passes applied in sequence.
pub open spec fn position_passes_s(
    bodies: Seq<Body>,
    joints: Seq<Joint>,
    contacts: Seq<Contact>,
    sub_dt: i64,
    iters: nat,
) -> (Seq<Body>, Seq<Joint>, Seq<Contact>)
    decreases iters,
{
    if iters == 0 {
        (bodies, joints, contacts)
    } else {
        let prev = position_passes_s(bodies, joints, contacts, sub_dt, (iters - 1) as nat);
        positions_solved_s(prev.0, prev.1, prev.2, sub_dt)
    }
}

/// Runs the configured number of position passes over the contacts and
/// joints.
pub fn run_position_passes(
    bodies: &mut Vec<Body>,
    joints: &mut Vec<Joint>,
    contacts: &mut Vec<Contact>,
    pos_iters: u32,
    dt: i64,
)
    requires
        forall|k: int|
            0 <= k < old(contacts).len() ==> (#[trigger] old(contacts)@[k]).entity1 < old(
                bodies,
            ).len() && old(contacts)@[k].entity2 < old(bodies).len() && old(
                contacts,
            )@[k].entity1 != old(contacts)@[k].entity2,
    ensures
        (final(bodies)@, final(joints)@, final(contacts)@) == position_passes_s(
            old(bodies)@,
            old(joints)@,
            old(contacts)@,
            dt,
            pos_iters as nat,
        ),
        final(bodies).len() == old(bodies).len(),
        final(joints).len() == old(joints).len(),
        final(contacts).len() == old(contacts).len(),
        forall|k: int|
            0 <= k < old(contacts).len() ==> (#[trigger] final(contacts)@[k]).entity1 == old(
                contacts,
            )@[k].entity1 && final(contacts)@[k].entity2 == old(contacts)@[k].entity2,
        forall|i: int|
            0 <= i < old(bodies).len() ==> same_but_motion(
                #[trigger] old(bodies)@[i],
                final(bodies)@[i],
            ),
        forall|i: int|
            0 <= i < old(bodies).len() && (#[trigger] old(bodies)@[i]).rigid_body
                != RigidBody::Dynamic ==> final(bodies)@[i] == old(bodies)@[i],
        forall|k: int|
            0 <= k < old(joints).len() ==> same_but_lambda(
                #[trigger] old(joints)@[k],
                final(joints)@[k],
            ),
{
    let n = bodies.len();
    let mut it: u32 = 0;
    while it < pos_iters
        invariant
            n == bodies.len(),
            bodies.len() == old(bodies).len(),
            joints.len() == old(joints).len(),
            contacts.len() == old(contacts).len(),
            it <= pos_iters,
            (bodies@, joints@, contacts@) == position_passes_s(
                old(bodies)@,
                old(joints)@,
                old(contacts)@,
                dt,
                it as nat,
            ),
            forall|k: int|
                0 <= k < old(contacts).len() ==> (#[trigger] contacts@[k]).entity1 == old(
                    contacts,
                )@[k].entity1 && contacts@[k].entity2 == old(contacts)@[k].entity2,
            forall|k: int|
                0 <= k < old(contacts).len() ==> (#[trigger] old(contacts)@[k]).entity1 < n
                    && old(contacts)@[k].entity2 < n && old(contacts)@[k].entity1 != old(
                    contacts,
                )@[k].entity2,
            forall|i: int|
                0 <= i < old(bodies).len() ==> same_but_motion(
                    #[trigger] old(bodies)@[i],
                    bodies@[i],
                ),
            forall|i: int|
                0 <= i < old(bodies).len() && (#[trigger] old(bodies)@[i]).rigid_body
                    != RigidBody::Dynamic ==> bodies@[i] == old(bodies)@[i],
            forall|k: int|
                0 <= k < old(joints).len() ==> same_but_lambda(
                    #[trigger] old(joints)@[k],
                    joints@[k],
                ),
        decreases pos_iters - it,
    {
        let ghost pre_pass = bodies@;
        let ghost pre_joints = joints@;
        proof {
            assert forall|k: int| 0 <= k < contacts.len() implies (
            #[trigger] contacts@[k]).entity1 < n && contacts@[k].entity2 < n
                && contacts@[k].entity1 != contacts@[k].entity2 by {
                assert(contacts@[k].entity1 == old(contacts)@[k].entity1);
            }
        }
        solve_positions(bodies, joints, contacts, dt);
        proof {
            assert((bodies@, joints@, contacts@) == position_passes_s(
                old(bodies)@,
                old(joints)@,
                old(contacts)@,
                dt,
                (it + 1) as nat,
            ));
            lemma_bodies_frame_composes(old(bodies)@, pre_pass, bodies@);
            lemma_joints_frame_composes(old(joints)@, pre_joints, joints@);
        }
        it = it + 1;
    }
}

/// Every body integrated over a substep.
pub open spec fn integrated_bodies_s(bodies: Seq<Body>, g: Vec3, dt: i64) -> Seq<Body> {
    bodies.map_values(|b: Body| crate::integrator::integrated_body_s(b, g, dt))
}

/// Every body's velocities derived from its position change.
pub open spec fn velocities_updated_s(bodies: Seq<Body>, dt: i64) -> Seq<Body> {
    bodies.map_values(|b: Body| velocity_updated_body_s(b, dt))
}

/// One whole substep, as a value: multipliers reset, every body
/// integrated, the contacts of the candidate pairs generated, the
/// position passes run, velocities derived from the position change, and
/// the velocity pass run.
pub open spec fn substep_s(
    bodies: Seq<Body>,
    shapes: Seq<Option<Shape>>,
    joints: Seq<Joint>,
    pairs: Seq<(usize, usize)>,
    g: Vec3,
    pos_iters: nat,
    dt: i64,
) -> (Seq<Body>, Seq<Joint>) {
    let joints1 = reset_lambdas_s(joints);
    let bodies1 = integrated_bodies_s(bodies, g, dt);
    let contacts = contacts_of_pairs_s(bodies1, shapes, pairs);
    let pp = position_passes_s(bodies1, joints1, contacts, dt, pos_iters);
    let bodies2 = velocities_updated_s(pp.0, dt);
    (velocities_solved_s(bodies2, pp.1, pp.2, dt), pp.1)
}

/// One substep: multipliers reset, integration, contact generation from
/// the candidate pairs, the configured number of position passes,
/// velocity derivation and the velocity pass.
#[verifier::rlimit(100)]
pub fn substep(
    world: &mut World,
    gravity: &Gravity,
    pairs: &Vec<(usize, usize)>,
    pos_iters: u32,
    dt: i64,
)
    requires
        old(world).wf(),
        forall|q: int|
            0 <= q < pairs.len() ==> (#[trigger] pairs@[q]).0 < pairs@[q].1 && pairs@[q].1 < old(
                world,
            ).bodies.len(),
    ensures
        (final(world).bodies@, final(world).joints@) == substep_s(
            old(world).bodies@,
            old(world).shapes@,
            old(world).joints@,
            pairs@,
            gravity.0,
            pos_iters as nat,
            dt,
        ),
        final(world).wf(),
        final(world).bodies.len() == old(world).bodies.len(),
        final(world).shapes == old(world).shapes,
        final(world).joints.len() == old(world).joints.len(),
        forall|i: int|
            0 <= i < old(world).bodies.len() ==> same_but_motion(
                #[trigger] old(world).bodies@[i],
                final(world).bodies@[i],
            ),
        forall|i: int|
            0 <= i < old(world).bodies.len() && (#[trigger] old(world).bodies@[i]).rigid_body
                != RigidBody::Dynamic ==> final(world).bodies@[i] == old(world).bodies@[i],
        forall|k: int|
            0 <= k < old(world).joints.len() ==> same_but_lambda(
                #[trigger] old(world).joints@[k],
                final(world).joints@[k],
            ),
{
    let n = world.bodies.len();
    reset_joint_lambdas(&mut world.joints);
    let ghost joints1 = world.joints@;
    integrate(&mut world.bodies, &gravity.0, dt);
    proof {
        assert(world.bodies@ =~= integrated_bodies_s(old(world).bodies@, gravity.0, dt));
        assert forall|i: int| 0 <= i < n implies same_but_motion(
            #[trigger] old(world).bodies@[i],
            world.bodies@[i],
        ) && ((old(world).bodies@[i]).rigid_body != RigidBody::Dynamic
            ==> world.bodies@[i] == old(world).bodies@[i]) by {
            lemma_integrated_preserves(old(world).bodies@[i], gravity.0, dt);
        }
    }
    let ghost bodies1 = world.bodies@;
    let mut contacts = generate_contacts(&world.bodies, &world.shapes, &pairs);
    let ghost contacts0 = contacts@;
    let ghost pre_passes = world.bodies@;
    let ghost pre_joints = world.joints@;
    run_position_passes(&mut world.bodies, &mut world.joints, &mut contacts, pos_iters, dt);
    proof {
        assert((world.bodies@, world.joints@, contacts@) == position_passes_s(
            bodies1,
            joints1,
            contacts0,
            dt,
            pos_iters as nat,
        ));
        lemma_bodies_frame_composes(old(world).bodies@, pre_passes, world.bodies@);
        lemma_joints_frame_composes(old(world).joints@, pre_joints, world.joints@);
    }
    let ghost pre_update = world.bodies@;
    update_velocities(&mut world.bodies, dt);
    proof {
        assert(world.bodies@ =~= velocities_updated_s(pre_update, dt));
        assert forall|i: int| 0 <= i < n implies same_but_motion(#[trigger] pre_update[i], world.bodies@[i])
            && (pre_update[i].rigid_body != RigidBody::Dynamic ==> world.bodies@[i]
            == pre_update[i]) by {
            lemma_velocity_updated_preserves(pre_update[i], dt);
        }
        lemma_bodies_frame_composes(old(world).bodies@, pre_update, world.bodies@);
    }
    let ghost pre_vel = world.bodies@;
    solve_velocities(&mut world.bodies, &world.joints, &contacts, dt);
    proof {
        lemma_bodies_frame_composes(old(world).bodies@, pre_vel, world.bodies@);
    }
}

} // verus!
