//! Contacts: a simple narrow phase for the built-in shapes, the one-sided
//! non-penetration position constraint, and the restitution / friction
//! velocity pass.
//!
//! Richer geometry comes from an external collision provider; the solver
//! consumes its contacts through the same [`Contact`] records as these.

use vstd::prelude::*;
use crate::body::{body_rotated_s, body_shifted_s, body_vel_kicked_s, gen_inv_mass_s, Body};
use crate::components::{RigidBody, Shape};
use crate::fp::{fp_add, fp_div, fp_mul, fp_neg, fp_sub, sabs, sadd, sdiv, shalf, smul, sneg, ssub};
use crate::joints::delta_lambda;
use crate::rot::{q_conj, q_rotate, Rot};
use crate::joints::delta_lambda_s;
use crate::vec3::{v3_add, v3_cross, v3_dot, v3_len, v3_neg, v3_normalize, v3_scale, v3_sub, Vec3};

verus! {

/// One contact point between two bodies, held for the length of a
/// substep: world-space anchor offsets and normal fixed at detection
/// time, and the accumulated normal multiplier for the friction cone.
#[derive(Clone, Copy, Debug, PartialEq, Eq, Structural)]
pub struct Contact {
    /// Index of the first body.
    pub entity1: usize,
    /// Index of the second body.
    pub entity2: usize,
    /// World offset of the contact point from the first body's position.
    pub r1: Vec3,
    /// World offset of the contact point from the second body's position.
    pub r2: Vec3,
    /// Contact normal, pointing from the first body toward the second.
    pub normal: Vec3,
    /// Penetration depth at detection.
    pub penetration: i64,
    /// Accumulated normal multiplier (reset each substep).
    pub normal_lambda: i64,
}

/// The geometry of a detected contact, before body indices are attached.
#[derive(Clone, Copy, Debug, PartialEq, Eq, Structural)]
pub struct ContactGeom {
    pub r1: Vec3,
    pub r2: Vec3,
    pub normal: Vec3,
    pub penetration: i64,
}

/// Clamp a coordinate into `[-h, h]`.
pub open spec fn clamp1_s(p: i64, h: i64) -> i64 {
    if p < sneg(h) {
        sneg(h)
    } else if p > h {
        h
    } else {
        p
    }
}

/// Clamp a coordinate into `[-h, h]`.
fn clamp1(p: i64, h: i64) -> (r: i64)
    ensures
        r == clamp1_s(p, h),
{
    let nh = fp_neg(h);
    if p < nh {
        nh
    } else if p > h {
        h
    } else {
        p
    }
}

/// Clamp each component of `p` into the box `[-h, h]`.
pub open spec fn clamp_to_box_s(p: Vec3, hx: i64, hy: i64, hz: i64) -> Vec3 {
    Vec3 { x: clamp1_s(p.x, hx), y: clamp1_s(p.y, hy), z: clamp1_s(p.z, hz) }
}

/// Ball against ball: overlap along the center line; degenerate
/// (coincident centers) pairs yield no contact rather than a division by
/// zero.
pub open spec fn contact_sphere_sphere_s(ra: i64, pos1: Vec3, rb: i64, pos2: Vec3) -> Option<
    ContactGeom,
> {
    let d = v3_sub(pos2, pos1);
    let dist = v3_len(d);
    let pen = ssub(sadd(ra, rb), dist);
    if dist > 0 && pen > 0 {
        let n = v3_normalize(d);
        Option::Some(
            ContactGeom {
                r1: v3_scale(n, ra),
                r2: v3_scale(n, sneg(rb)),
                normal: n,
                penetration: pen,
            },
        )
    } else {
        Option::None
    }
}

/// Ball (first body) against box (second body): the ball center is taken
/// to the box's local frame, clamped to the box, and the offset from the
/// clamped point gives normal and depth. A center exactly on the box
/// surface or inside it is degenerate and yields no contact.
pub open spec fn contact_sphere_cuboid_s(
    radius: i64,
    pos_s: Vec3,
    pos_c: Vec3,
    rot_c: Rot,
    hx: i64,
    hy: i64,
    hz: i64,
) -> Option<ContactGeom> {
    let local = q_rotate(q_conj(rot_c), v3_sub(pos_s, pos_c));
    let cp = clamp_to_box_s(local, hx, hy, hz);
    let diff = v3_sub(local, cp);
    let dist = v3_len(diff);
    let pen = ssub(radius, dist);
    if dist > 0 && pen > 0 {
        let n_out = q_rotate(rot_c, v3_normalize(diff));
        let n = v3_neg(n_out);
        Option::Some(
            ContactGeom {
                r1: v3_scale(n, radius),
                r2: q_rotate(rot_c, cp),
                normal: n,
                penetration: pen,
            },
        )
    } else {
        Option::None
    }
}

/// The roles of the two bodies in a contact exchanged: offsets swap and
/// the normal flips.
pub open spec fn geom_swapped_s(g: ContactGeom) -> ContactGeom {
    ContactGeom { r1: g.r2, r2: g.r1, normal: v3_neg(g.normal), penetration: g.penetration }
}

/// The contact between two posed shapes, if they overlap. Box against box
/// is left to an external narrow phase and yields none here.
pub open spec fn compute_contact_s(
    s1: Shape,
    pos1: Vec3,
    rot1: Rot,
    s2: Shape,
    pos2: Vec3,
    rot2: Rot,
) -> Option<ContactGeom> {
    match (s1, s2) {
        (Shape::Sphere { radius: ra }, Shape::Sphere { radius: rb }) => contact_sphere_sphere_s(
            ra,
            pos1,
            rb,
            pos2,
        ),
        (Shape::Sphere { radius }, Shape::Cuboid { hx, hy, hz }) => contact_sphere_cuboid_s(
            radius,
            pos1,
            pos2,
            rot2,
            hx,
            hy,
            hz,
        ),
        (Shape::Cuboid { hx, hy, hz }, Shape::Sphere { radius }) => {
            match contact_sphere_cuboid_s(radius, pos2, pos1, rot1, hx, hy, hz) {
                Option::Some(g) => Option::Some(geom_swapped_s(g)),
                Option::None => Option::None,
            }
        },
        _ => Option::None,
    }
}

/// The contact between two posed shapes; see [`compute_contact_s`].
pub fn compute_contact(s1: &Shape, pos1: &Vec3, rot1: &Rot, s2: &Shape, pos2: &Vec3, rot2: &Rot) -> (r:
    Option<ContactGeom>)
    ensures
        r == compute_contact_s(*s1, *pos1, *rot1, *s2, *pos2, *rot2),
{
    match (*s1, *s2) {
        (Shape::Sphere { radius: ra }, Shape::Sphere { radius: rb }) => {
            let d = pos2.minus(pos1);
            let dist = d.length();
            let pen = fp_sub(fp_add(ra, rb), dist);
            if dist > 0 && pen > 0 {
                let n = d.normalized();
                Some(
                    ContactGeom {
                        r1: n.scaled(ra),
                        r2: n.scaled(fp_neg(rb)),
                        normal: n,
                        penetration: pen,
                    },
                )
            } else {
                None
            }
        },
        (Shape::Sphere { radius }, Shape::Cuboid { hx, hy, hz }) => {
            contact_sphere_cuboid(radius, pos1, pos2, rot2, hx, hy, hz)
        },
        (Shape::Cuboid { hx, hy, hz }, Shape::Sphere { radius }) => {
            match contact_sphere_cuboid(radius, pos2, pos1, rot1, hx, hy, hz) {
                Some(g) => Some(
                    ContactGeom {
                        r1: g.r2,
                        r2: g.r1,
                        normal: g.normal.neg(),
                        penetration: g.penetration,
                    },
                ),
                None => None,
            }
        },
        _ => None,
    }
}

/// Ball against box; see [`contact_sphere_cuboid_s`].
#[verifier::rlimit(100)]
fn contact_sphere_cuboid(
    radius: i64,
    pos_s: &Vec3,
    pos_c: &Vec3,
    rot_c: &Rot,
    hx: i64,
    hy: i64,
    hz: i64,
) -> (r: Option<ContactGeom>)
    ensures
        r == contact_sphere_cuboid_s(radius, *pos_s, *pos_c, *rot_c, hx, hy, hz),
{
    let local = rot_c.inv().rotate(&pos_s.minus(pos_c));
    let cp = Vec3 { x: clamp1(local.x, hx), y: clamp1(local.y, hy), z: clamp1(local.z, hz) };
    let diff = local.minus(&cp);
    let dist = diff.length();
    let pen = fp_sub(radius, dist);
    if dist > 0 && pen > 0 {
        let n = rot_c.rotate(&diff.normalized()).neg();
        Some(
            ContactGeom { r1: n.scaled(radius), r2: rot_c.rotate(&cp), normal: n, penetration: pen },
        )
    } else {
        None
    }
}

/// One position-correction pass for a contact, as a value: the current
/// separation of the anchor points along the normal is re-measured; an
/// actual overlap `pen` becomes a hard XPBD increment
/// `dl = delta_lambda_s(pen, lambda, 0, w1 + w2)` that accumulates on the
/// contact, and the impulse `normal * dl` shifts and turns both bodies
/// through their generalized inverse masses (with opposite signs).
#[verifier::opaque]
pub open spec fn contact_position_solved_s(c: Contact, b1: Body, b2: Body) -> (
    Contact,
    Body,
    Body,
) {
    let p1 = v3_add(b1.pos, c.r1);
    let p2 = v3_add(b2.pos, c.r2);
    let pen = v3_dot(v3_sub(p1, p2), c.normal);
    if pen > 0 {
        let n = c.normal;
        let w1 = gen_inv_mass_s(b1, c.r1, n);
        let w2 = gen_inv_mass_s(b2, c.r2, n);
        let dl = delta_lambda_s(pen, c.normal_lambda, 0, sadd(w1, w2));
        let c2 = Contact { normal_lambda: sadd(c.normal_lambda, dl), ..c };
        let p = v3_scale(n, dl);
        let b1a = body_rotated_s(body_shifted_s(b1, p), v3_cross(c.r1, p));
        let pn = v3_neg(p);
        let b2a = body_rotated_s(body_shifted_s(b2, pn), v3_cross(c.r2, pn));
        (c2, b1a, b2a)
    } else {
        (c, b1, b2)
    }
}

/// One position-correction pass for a contact: the current separation of
/// the anchor points along the normal is re-measured, and only an actual
/// overlap is corrected (the constraint is one-sided), as a hard XPBD
/// constraint whose multiplier accumulates on the contact. Only position
/// and rotation change on a body; a non-dynamic body is never written.
pub fn solve_contact_position(c: &mut Contact, body1: &mut Body, body2: &mut Body, sub_dt: i64)
    ensures
        (*final(c), *final(body1), *final(body2)) == contact_position_solved_s(
            *old(c),
            *old(body1),
            *old(body2),
        ),
        *final(c) == (Contact { normal_lambda: final(c).normal_lambda, ..*old(c) }),
        *final(body1) == (Body {
            pos: final(body1).pos,
            rot: final(body1).rot,
            ..*old(body1)
        }),
        *final(body2) == (Body {
            pos: final(body2).pos,
            rot: final(body2).rot,
            ..*old(body2)
        }),
        old(body1).rigid_body != RigidBody::Dynamic ==> *final(body1) == *old(body1),
        old(body2).rigid_body != RigidBody::Dynamic ==> *final(body2) == *old(body2),
{
    proof {
        reveal(contact_position_solved_s);
    }
    let p1 = body1.pos.plus(&c.r1);
    let p2 = body2.pos.plus(&c.r2);
    let pen = p1.minus(&p2).dot(&c.normal);
    if pen > 0 {
        let n = c.normal;
        let w1 = body1.gen_inv_mass(&c.r1, &n);
        let w2 = body2.gen_inv_mass(&c.r2, &n);
        let dl = delta_lambda(pen, c.normal_lambda, 0, fp_add(w1, w2));
        c.normal_lambda = fp_add(c.normal_lambda, dl);
        let p = n.scaled(dl);
        body1.apply_shift(&p);
        body1.apply_rot_impulse(&c.r1.cross(&p));
        let pn = p.neg();
        body2.apply_shift(&pn);
        body2.apply_rot_impulse(&c.r2.cross(&pn));
    }
}

/// The average of two coefficients: the fixed rule by which two touching
/// bodies' restitution or friction coefficients combine.
pub open spec fn combine_coefficients_s(a: i64, b: i64) -> i64 {
    shalf(sadd(a, b))
}

/// The velocity pass for a contact, as a value. Restitution first: the
/// normal relative velocity `vn` is driven to `-e` times its pre-solve
/// value (`e` the averaged coefficients; zero target when the bodies were
/// already separating), by the impulse `normal * (target - vn) / w_sum`
/// applied to both bodies with opposite signs. Then Coulomb friction on
/// the tangential velocity measured before the kick: within the static
/// cone `mu_static * |lambda_n| / dt` the tangential velocity is removed
/// entirely (stick); outside it the reduction is clamped to the dynamic
/// cone `mu_dynamic * |lambda_n| / dt` (slide).
#[verifier::opaque]
pub open spec fn contact_velocity_solved_s(c: Contact, b1: Body, b2: Body, sub_dt: i64) -> (
    Body,
    Body,
) {
    let n = c.normal;
    let v1 = v3_add(b1.lin_vel, v3_cross(b1.ang_vel, c.r1));
    let v2 = v3_add(b2.lin_vel, v3_cross(b2.ang_vel, c.r2));
    let v_rel = v3_sub(v1, v2);
    let vn = v3_dot(v_rel, n);
    let pv1 = v3_add(b1.pre_solve_lin_vel, v3_cross(b1.pre_solve_ang_vel, c.r1));
    let pv2 = v3_add(b2.pre_solve_lin_vel, v3_cross(b2.pre_solve_ang_vel, c.r2));
    let vn_pre = v3_dot(v3_sub(pv1, pv2), n);
    let w1 = gen_inv_mass_s(b1, c.r1, n);
    let w2 = gen_inv_mass_s(b2, c.r2, n);
    let w_sum = sadd(w1, w2);
    let e = combine_coefficients_s(b1.restitution.0, b2.restitution.0);
    let target = if vn_pre > 0 {
        sneg(smul(e, vn_pre))
    } else {
        0
    };
    let dvn = ssub(target, vn);
    let kicked = if dvn != 0 && w_sum > 0 {
        let p = v3_scale(n, sdiv(dvn, w_sum));
        (body_vel_kicked_s(b1, p, c.r1), body_vel_kicked_s(b2, v3_neg(p), c.r2))
    } else {
        (b1, b2)
    };
    let vt = v3_sub(v_rel, v3_scale(n, vn));
    let vt_len = v3_len(vt);
    if vt_len > 0 && w_sum > 0 {
        let cone_scale = sdiv(sabs(c.normal_lambda), sub_dt);
        let mu_s = combine_coefficients_s(b1.friction.static_coefficient, b2.friction.static_coefficient);
        let mu_d = combine_coefficients_s(b1.friction.dynamic_coefficient, b2.friction.dynamic_coefficient);
        let cone_s = smul(mu_s, cone_scale);
        let cone_d = smul(mu_d, cone_scale);
        let mag = if vt_len <= cone_s {
            vt_len
        } else if cone_d < vt_len {
            cone_d
        } else {
            vt_len
        };
        let p = v3_scale(v3_normalize(vt), sdiv(sneg(mag), w_sum));
        (
            body_vel_kicked_s(kicked.0, p, c.r1),
            body_vel_kicked_s(kicked.1, v3_neg(p), c.r2),
        )
    } else {
        kicked
    }
}

/// The velocity pass for a contact; see [`contact_velocity_solved_s`].
/// Only velocities change on a body; a non-dynamic body is never written.
pub fn solve_contact_velocity(c: &Contact, body1: &mut Body, body2: &mut Body, sub_dt: i64)
    ensures
        (*final(body1), *final(body2)) == contact_velocity_solved_s(
            *c,
            *old(body1),
            *old(body2),
            sub_dt,
        ),
        *final(body1) == (Body {
            lin_vel: final(body1).lin_vel,
            ang_vel: final(body1).ang_vel,
            ..*old(body1)
        }),
        *final(body2) == (Body {
            lin_vel: final(body2).lin_vel,
            ang_vel: final(body2).ang_vel,
            ..*old(body2)
        }),
        old(body1).rigid_body != RigidBody::Dynamic ==> *final(body1) == *old(body1),
        old(body2).rigid_body != RigidBody::Dynamic ==> *final(body2) == *old(body2),
{
    proof {
        reveal(contact_velocity_solved_s);
    }
    let n = c.normal;
    let v1 = body1.lin_vel.plus(&body1.ang_vel.cross(&c.r1));
    let v2 = body2.lin_vel.plus(&body2.ang_vel.cross(&c.r2));
    let v_rel = v1.minus(&v2);
    let vn = v_rel.dot(&n);

    let pv1 = body1.pre_solve_lin_vel.plus(&body1.pre_solve_ang_vel.cross(&c.r1));
    let pv2 = body2.pre_solve_lin_vel.plus(&body2.pre_solve_ang_vel.cross(&c.r2));
    let vn_pre = pv1.minus(&pv2).dot(&n);

    let w1 = body1.gen_inv_mass(&c.r1, &n);
    let w2 = body2.gen_inv_mass(&c.r2, &n);
    let w_sum = fp_add(w1, w2);

    // Restitution: aim the normal velocity at -e * (pre-solve closing speed).
    let e = crate::fp::fp_half(fp_add(body1.restitution.0, body2.restitution.0));
    let target: i64 = if vn_pre > 0 {
        fp_neg(fp_mul(e, vn_pre))
    } else {
        0
    };
    let dvn = fp_sub(target, vn);
    if dvn != 0 && w_sum > 0 {
        let p = n.scaled(fp_div(dvn, w_sum));
        body1.apply_vel_impulse(&p, &c.r1);
        let pn = p.neg();
        body2.apply_vel_impulse(&pn, &c.r2);
    }

    // Coulomb friction on the tangential velocity.
    let vt = v_rel.minus(&n.scaled(vn));
    let vt_len = vt.length();
    if vt_len > 0 && w_sum > 0 {
        let cone_scale = fp_div(crate::fp::fp_abs(c.normal_lambda), sub_dt);
        let mu_s = crate::fp::fp_half(
            fp_add(body1.friction.static_coefficient, body2.friction.static_coefficient),
        );
        let mu_d = crate::fp::fp_half(
            fp_add(body1.friction.dynamic_coefficient, body2.friction.dynamic_coefficient),
        );
        let cone_s = fp_mul(mu_s, cone_scale);
        let cone_d = fp_mul(mu_d, cone_scale);
        let mag: i64 = if vt_len <= cone_s {
            vt_len
        } else if cone_d < vt_len {
            cone_d
        } else {
            vt_len
        };
        let t_hat = vt.normalized();
        let p = t_hat.scaled(fp_div(fp_neg(mag), w_sum));
        body1.apply_vel_impulse(&p, &c.r1);
        let pn = p.neg();
        body2.apply_vel_impulse(&pn, &c.r2);
    }
}

} // verus!
