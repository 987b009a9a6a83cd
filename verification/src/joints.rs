//! Joints and the XPBD position-correction protocol.
//!
//! Every joint kind shares the same machinery: a generic distance or
//! angle limit computes a correction, the XPBD update turns it into a
//! Lagrange-multiplier increment against the joint's compliance, and the
//! increment is applied to both bodies through their generalized inverse
//! masses. The accumulated multipliers reset at the start of each substep.

use vstd::prelude::*;
use crate::body::{body_rotated_s, body_shifted_s, gen_inv_mass_s, inv_inertia_world_s, Body};
use crate::components::RigidBody;
use crate::fp::{fp_add, fp_div, fp_mul, fp_neg, fp_sub, sabs, sadd, sdiv, smul, sneg, ssub, FP_ONE};
use crate::resources::ConfigError;
use crate::rot::{q_conj, q_from_axis_angle, q_mul, q_rotate, q_vec, Rot};
use crate::trig::{asin_s, clamp_unit_s, lemma_asin_range, lemma_wrap_angle, wrap_angle_s, PI_FP, TWO_PI_FP};
use crate::mat3::m3_mul_vec;
use crate::vec3::{v3_add, v3_cross, v3_dot, v3_len, v3_neg, v3_normalize, v3_scale, v3_sub, Vec3};

verus! {

/// Below this separation a distance constraint is degenerate and yields
/// no correction instead of dividing by a near-zero length.
pub const DIST_EPS: i64 = 0;

/// Two, in fixed point.
pub const TWO_FP: i64 = 2 * FP_ONE;

/// The separation of the two world anchors.
pub open spec fn anchor_delta_s(r1: Vec3, r2: Vec3, pos1: Vec3, pos2: Vec3) -> Vec3 {
    v3_sub(v3_add(pos2, r2), v3_add(pos1, r1))
}

/// The correction that pushes the anchor distance back into `[min, max]`,
/// directed along the separation; zero when the distance is within range
/// or degenerate.
pub open spec fn limit_distance_s(
    min: i64,
    max: i64,
    r1: Vec3,
    r2: Vec3,
    pos1: Vec3,
    pos2: Vec3,
) -> Vec3 {
    let delta = anchor_delta_s(r1, r2, pos1, pos2);
    let dist = v3_len(delta);
    if dist <= DIST_EPS {
        Vec3 { x: 0, y: 0, z: 0 }
    } else if dist < min {
        v3_scale(delta, sdiv(ssub(min, dist), dist))
    } else if dist > max {
        v3_scale(delta, sdiv(ssub(max, dist), dist))
    } else {
        Vec3 { x: 0, y: 0, z: 0 }
    }
}

/// Range limit on the anchor distance; see [`limit_distance_s`].
pub fn limit_distance(min: i64, max: i64, r1: &Vec3, r2: &Vec3, pos1: &Vec3, pos2: &Vec3) -> (r:
    Vec3)
    ensures
        r == limit_distance_s(min, max, *r1, *r2, *pos1, *pos2),
{
    let delta = pos2.plus(r2).minus(&pos1.plus(r1));
    let dist = delta.length();
    if dist <= DIST_EPS {
        Vec3 { x: 0, y: 0, z: 0 }
    } else if dist < min {
        delta.scaled(fp_div(fp_sub(min, dist), dist))
    } else if dist > max {
        delta.scaled(fp_div(fp_sub(max, dist), dist))
    } else {
        Vec3 { x: 0, y: 0, z: 0 }
    }
}

/// The correction that pushes the anchor separation's projection on
/// `axis` back into `[min, max]`, directed along the axis; zero when the
/// projection is within range.
pub open spec fn limit_distance_along_axis_s(
    min: i64,
    max: i64,
    axis: Vec3,
    r1: Vec3,
    r2: Vec3,
    pos1: Vec3,
    pos2: Vec3,
) -> Vec3 {
    let delta = anchor_delta_s(r1, r2, pos1, pos2);
    let a = v3_dot(delta, axis);
    if a < min {
        v3_scale(axis, ssub(min, a))
    } else if a > max {
        v3_scale(axis, ssub(max, a))
    } else {
        Vec3 { x: 0, y: 0, z: 0 }
    }
}

/// Range limit along an axis; see [`limit_distance_along_axis_s`].
pub fn limit_distance_along_axis(
    min: i64,
    max: i64,
    axis: &Vec3,
    r1: &Vec3,
    r2: &Vec3,
    pos1: &Vec3,
    pos2: &Vec3,
) -> (r: Vec3)
    ensures
        r == limit_distance_along_axis_s(min, max, *axis, *r1, *r2, *pos1, *pos2),
{
    let delta = pos2.plus(r2).minus(&pos1.plus(r1));
    let a = delta.dot(axis);
    if a < min {
        axis.scaled(fp_sub(min, a))
    } else if a > max {
        axis.scaled(fp_sub(max, a))
    } else {
        Vec3 { x: 0, y: 0, z: 0 }
    }
}

/// Distance-range fixed point: whenever the measured projection already
/// lies within `[min, max]` - in particular at `min == max == d` with the
/// projection solved to exactly `d` - the axis limit returns the zero
/// correction, so a solved state is a fixed point of the constraint.
pub proof fn lemma_limit_along_axis_fixed_point(
    min: i64,
    max: i64,
    axis: Vec3,
    r1: Vec3,
    r2: Vec3,
    pos1: Vec3,
    pos2: Vec3,
)
    requires
        min <= v3_dot(anchor_delta_s(r1, r2, pos1, pos2), axis) <= max,
    ensures
        limit_distance_along_axis_s(min, max, axis, r1, r2, pos1, pos2) == (Vec3 {
            x: 0,
            y: 0,
            z: 0,
        }),
{
}

/// The distance limit is likewise at a fixed point on any in-range state.
pub proof fn lemma_limit_distance_fixed_point(
    min: i64,
    max: i64,
    r1: Vec3,
    r2: Vec3,
    pos1: Vec3,
    pos2: Vec3,
)
    requires
        min <= v3_len(anchor_delta_s(r1, r2, pos1, pos2)) <= max,
    ensures
        limit_distance_s(min, max, r1, r2, pos1, pos2) == (Vec3 { x: 0, y: 0, z: 0 }),
{
}

/// The swing angle of `n2` against `n1` about the hinge axis `n`:
/// the arcsine of the projected cross product, moved to the far
/// half-circle when the axes oppose, then wrapped into the principal
/// range.
pub open spec fn swing_angle_s(n: Vec3, n1: Vec3, n2: Vec3) -> i64 {
    let s = clamp_unit_s(v3_dot(v3_cross(n1, n2), n));
    let phi = asin_s(s);
    let phi2 = if v3_dot(n1, n2) < 0 {
        ssub(PI_FP, phi)
    } else {
        phi
    };
    wrap_angle_s(phi2)
}

/// The swing angle before wrapping: the arcsine, moved to the far
/// half-circle when the axes oppose.
pub open spec fn raw_swing_angle_s(n: Vec3, n1: Vec3, n2: Vec3) -> i64 {
    let s = clamp_unit_s(v3_dot(v3_cross(n1, n2), n));
    if v3_dot(n1, n2) < 0 {
        ssub(PI_FP, asin_s(s))
    } else {
        asin_s(s)
    }
}

/// Angle-wrap law: the swing angle always lands in the principal range
/// `[-PI_FP, PI_FP]`, and wrapping moves the raw angle by exactly one
/// full turn or not at all - an angle just past one seam reappears just
/// inside the other, so a continuous sweep of `n1`, `n2` yields a
/// continuous corrected-angle sequence with no jump anywhere else.
pub proof fn lemma_swing_angle_wrap(n: Vec3, n1: Vec3, n2: Vec3)
    ensures
        -PI_FP <= swing_angle_s(n, n1, n2) <= PI_FP,
        swing_angle_s(n, n1, n2) == raw_swing_angle_s(n, n1, n2) || swing_angle_s(n, n1, n2)
            == raw_swing_angle_s(n, n1, n2) - TWO_PI_FP || swing_angle_s(n, n1, n2)
            == raw_swing_angle_s(n, n1, n2) + TWO_PI_FP,
{
    let s = clamp_unit_s(v3_dot(v3_cross(n1, n2), n));
    lemma_asin_range(s);
    lemma_wrap_angle(raw_swing_angle_s(n, n1, n2));
}

/// The measured swing angle; see [`swing_angle_s`].
pub fn swing_angle(n: &Vec3, n1: &Vec3, n2: &Vec3) -> (r: i64)
    ensures
        r == swing_angle_s(*n, *n1, *n2),
        -PI_FP <= r <= PI_FP,
{
    let s = crate::trig::clamp_unit(n1.cross(n2).dot(n));
    let mut phi = crate::trig::asin_fp(s);
    if n1.dot(n2) < 0 {
        phi = fp_sub(PI_FP, phi);
    }
    proof {
        lemma_swing_angle_wrap(*n, *n1, *n2);
    }
    crate::trig::wrap_angle(phi)
}

/// The angular correction enforcing a swing-angle range: `None` when the
/// angle is already within `[alpha, beta]`; otherwise the rotation vector
/// that brings the swing back to the violated bound, capped in magnitude
/// at `max_correction` so one pass never applies a destabilizing jump.
pub open spec fn limit_angle_s(
    n: Vec3,
    n1: Vec3,
    n2: Vec3,
    alpha: i64,
    beta: i64,
    max_correction: i64,
) -> Option<Vec3> {
    let phi = swing_angle_s(n, n1, n2);
    if phi < alpha || phi > beta {
        let target = if phi < alpha {
            alpha
        } else {
            beta
        };
        let rot = q_from_axis_angle(n, target);
        let omega = v3_cross(q_rotate(rot, n1), n2);
        let mag = v3_len(omega);
        if mag > max_correction {
            Option::Some(v3_scale(omega, sdiv(max_correction, mag)))
        } else {
            Option::Some(omega)
        }
    } else {
        Option::None
    }
}

/// Swing-angle range limit; see [`limit_angle_s`]. Returns `None` exactly
/// when the measured swing angle is already within the limits.
pub fn limit_angle(n: &Vec3, n1: &Vec3, n2: &Vec3, alpha: i64, beta: i64, max_correction: i64) -> (r:
    Option<Vec3>)
    requires
        -PI_FP <= alpha <= beta <= PI_FP,
    ensures
        r == limit_angle_s(*n, *n1, *n2, alpha, beta, max_correction),
        r is None <==> alpha <= swing_angle_s(*n, *n1, *n2) <= beta,
{
    let phi = swing_angle(n, n1, n2);
    if phi < alpha || phi > beta {
        let target: i64 = if phi < alpha {
            alpha
        } else {
            beta
        };
        let rot = Rot::from_axis_angle(n, target);
        let omega = rot.rotate(n1).cross(n2);
        let mag = omega.length();
        if mag > max_correction {
            Some(omega.scaled(fp_div(max_correction, mag)))
        } else {
            Some(omega)
        }
    } else {
        None
    }
}

/// The compliance scaled to the substep: `alpha / dt^2`.
pub open spec fn compliance_scaled_s(compliance: i64, sub_dt: i64) -> i64 {
    sdiv(compliance, smul(sub_dt, sub_dt))
}

/// The compliance scaled to the substep.
pub fn compliance_scaled(compliance: i64, sub_dt: i64) -> (r: i64)
    ensures
        r == compliance_scaled_s(compliance, sub_dt),
{
    fp_div(compliance, fp_mul(sub_dt, sub_dt))
}

/// The XPBD multiplier increment for a scalar constraint `C` with
/// accumulated multiplier `lambda`, substep-scaled compliance `alpha_t`
/// and total generalized inverse mass `w_sum`:
/// `(-C - alpha_t * lambda) / (w_sum + alpha_t)`.
/// A zero denominator (two non-dynamic bodies under a rigid constraint)
/// yields a zero increment.
pub open spec fn delta_lambda_s(c: i64, lambda: i64, alpha_t: i64, w_sum: i64) -> i64 {
    sdiv(ssub(sneg(c), smul(alpha_t, lambda)), sadd(w_sum, alpha_t))
}

/// The XPBD multiplier increment; see [`delta_lambda_s`].
pub fn delta_lambda(c: i64, lambda: i64, alpha_t: i64, w_sum: i64) -> (r: i64)
    ensures
        r == delta_lambda_s(c, lambda, alpha_t, w_sum),
{
    fp_div(fp_sub(fp_neg(c), fp_mul(alpha_t, lambda)), fp_add(w_sum, alpha_t))
}

/// An inclusive angle or distance range for a joint's free degree of
/// freedom.
#[derive(Clone, Copy, Debug, PartialEq, Eq, Structural)]
pub struct JointLimit {
    pub min: i64,
    pub max: i64,
}

impl JointLimit {
    /// A range from `min` to `max`.
    pub fn new(min: i64, max: i64) -> (r: JointLimit)
        ensures
            r == (JointLimit { min: min, max: max }),
    {
        JointLimit { min, max }
    }
}

/// A deterministic unit vector orthogonal to `a`: the cross product of
/// `a` with the coordinate axis it leans on least, normalized.
pub open spec fn orth_axis_s(a: Vec3) -> Vec3 {
    let c = if sabs(a.x) <= sabs(a.y) && sabs(a.x) <= sabs(a.z) {
        Vec3 { x: FP_ONE, y: 0, z: 0 }
    } else if sabs(a.y) <= sabs(a.z) {
        Vec3 { x: 0, y: FP_ONE, z: 0 }
    } else {
        Vec3 { x: 0, y: 0, z: FP_ONE }
    };
    v3_normalize(v3_cross(a, c))
}

/// A deterministic unit vector orthogonal to `a`.
pub fn orth_axis(a: &Vec3) -> (r: Vec3)
    ensures
        r == orth_axis_s(*a),
{
    let ax = crate::fp::fp_abs(a.x);
    let ay = crate::fp::fp_abs(a.y);
    let az = crate::fp::fp_abs(a.z);
    let c = if ax <= ay && ax <= az {
        Vec3 { x: FP_ONE, y: 0, z: 0 }
    } else if ay <= az {
        Vec3 { x: 0, y: FP_ONE, z: 0 }
    } else {
        Vec3 { x: 0, y: 0, z: FP_ONE }
    };
    a.cross(&c).normalized()
}

/// Which degrees of freedom a joint constrains.
#[derive(Clone, Copy, Debug, PartialEq, Eq, Structural)]
pub enum JointKind {
    /// Full relative position and orientation are locked.
    Fixed,
    /// Anchors coincide; all rotation is free (a ball joint).
    Spherical,
    /// Anchors coincide and the body axes stay aligned with
    /// `aligned_axis`; twist about it is free, optionally within an angle
    /// range (a hinge).
    Revolute { aligned_axis: Vec3, angle_limit: Option<JointLimit> },
    /// All rotation is locked and translation is confined to
    /// `free_axis`, within a distance range (a slider).
    Prismatic { free_axis: Vec3, limit: JointLimit },
}

/// The world-frame positional correction a joint asks for of its bodies
/// in their current configuration: the anchors pulled together (for the
/// slider, only across its axis, with the along-axis range enforced).
pub open spec fn joint_pos_correction_s(j: Joint, b1: Body, b2: Body) -> Vec3 {
    let r1 = q_rotate(b1.rot, j.local_anchor1);
    let r2 = q_rotate(b2.rot, j.local_anchor2);
    match j.kind {
        JointKind::Prismatic { free_axis, limit } => {
            let a = q_rotate(b1.rot, free_axis);
            let along = limit_distance_along_axis_s(limit.min, limit.max, a, r1, r2, b1.pos, b2.pos);
            let delta = anchor_delta_s(r1, r2, b1.pos, b2.pos);
            let orth = v3_sub(delta, v3_scale(a, v3_dot(delta, a)));
            v3_sub(along, orth)
        },
        _ => limit_distance_s(0, 0, r1, r2, b1.pos, b2.pos),
    }
}

/// The angular correction a joint asks for: none for a ball joint, axis
/// alignment plus the optional swing limit for a hinge, the full
/// relative-orientation vector otherwise.
pub open spec fn joint_ang_correction_s(j: Joint, b1: Body, b2: Body) -> Vec3 {
    match j.kind {
        JointKind::Spherical => Vec3 { x: 0, y: 0, z: 0 },
        JointKind::Revolute { aligned_axis, angle_limit } => {
            let a1 = q_rotate(b1.rot, aligned_axis);
            let a2 = q_rotate(b2.rot, aligned_axis);
            let base = v3_cross(a1, a2);
            match angle_limit {
                Option::Some(lim) => {
                    let perp = orth_axis_s(aligned_axis);
                    let n1 = q_rotate(b1.rot, perp);
                    let n2 = q_rotate(b2.rot, perp);
                    match limit_angle_s(a1, n1, n2, lim.min, lim.max, PI_FP) {
                        Option::Some(w) => v3_add(base, w),
                        Option::None => base,
                    }
                },
                Option::None => base,
            }
        },
        _ => v3_scale(q_vec(q_mul(b1.rot, q_conj(b2.rot))), TWO_FP),
    }
}

/// One position-correction pass of a joint, as a value. The positional
/// correction becomes the XPBD increment
/// `dl = delta_lambda_s(|corr|, pos_lambda, compliance/dt^2, w1 + w2)`
/// accumulated on the joint, and the impulse `corr_dir * dl` shifts and
/// turns both bodies (with opposite signs) through their generalized
/// inverse masses at the rotated anchors. The angular correction, read
/// off the bodies as just moved, does the same through the world inverse
/// inertias alone, accumulating on the second multiplier.
#[verifier::opaque]
pub open spec fn constrained_s(j: Joint, b1: Body, b2: Body, sub_dt: i64) -> (Joint, Body, Body) {
    let r1 = q_rotate(b1.rot, j.local_anchor1);
    let r2 = q_rotate(b2.rot, j.local_anchor2);
    let corr = joint_pos_correction_s(j, b1, b2);
    let c = v3_len(corr);
    let at = compliance_scaled_s(j.compliance, sub_dt);
    let pos_solved = if c > 0 {
        let n = v3_normalize(corr);
        let w1 = gen_inv_mass_s(b1, r1, n);
        let w2 = gen_inv_mass_s(b2, r2, n);
        let dl = delta_lambda_s(c, j.pos_lambda, at, sadd(w1, w2));
        let j1 = Joint { pos_lambda: sadd(j.pos_lambda, dl), ..j };
        let p = v3_scale(n, dl);
        let b1a = body_rotated_s(body_shifted_s(b1, p), v3_cross(r1, p));
        let pn = v3_neg(p);
        let b2a = body_rotated_s(body_shifted_s(b2, pn), v3_cross(r2, pn));
        (j1, b1a, b2a)
    } else {
        (j, b1, b2)
    };
    let j1 = pos_solved.0;
    let b1a = pos_solved.1;
    let b2a = pos_solved.2;
    let dq = joint_ang_correction_s(j, b1a, b2a);
    let ca = v3_len(dq);
    if ca > 0 {
        let n = v3_normalize(dq);
        let w1 = sadd(0, v3_dot(n, m3_mul_vec(inv_inertia_world_s(b1a), n)));
        let w2 = sadd(0, v3_dot(n, m3_mul_vec(inv_inertia_world_s(b2a), n)));
        let dl = delta_lambda_s(ca, j.align_lambda, at, sadd(w1, w2));
        let j2 = Joint { align_lambda: sadd(j.align_lambda, dl), ..j1 };
        let jv = v3_scale(n, dl);
        (j2, body_rotated_s(b1a, jv), body_rotated_s(b2a, v3_neg(jv)))
    } else {
        (j1, b1a, b2a)
    }
}

/// Angle limits must lie in the principal range so the swing comparison
/// is meaningful.
pub open spec fn kind_wf(k: JointKind) -> bool {
    match k {
        JointKind::Revolute { aligned_axis, angle_limit } => match angle_limit {
            Option::Some(l) => -PI_FP <= l.min <= l.max <= PI_FP,
            Option::None => true,
        },
        _ => true,
    }
}

/// A joint between two bodies of an arena, with its compliance, local
/// anchors, velocity damping and accumulated Lagrange multipliers.
#[derive(Clone, Copy, Debug, PartialEq, Eq, Structural)]
pub struct Joint {
    /// Index of the first body.
    pub entity1: usize,
    /// Index of the second body.
    pub entity2: usize,
    /// Anchor offset in the first body's local frame.
    pub local_anchor1: Vec3,
    /// Anchor offset in the second body's local frame.
    pub local_anchor2: Vec3,
    /// Inverse stiffness; zero is a hard constraint.
    pub compliance: i64,
    /// Linear relative-velocity damping coefficient.
    pub damping_lin: i64,
    /// Angular relative-velocity damping coefficient.
    pub damping_ang: i64,
    /// Accumulated positional multiplier (reset each substep).
    pub pos_lambda: i64,
    /// Accumulated angular multiplier (reset each substep).
    pub align_lambda: i64,
    /// Which degrees of freedom are constrained.
    pub kind: JointKind,
}

impl Joint {
    /// A joint between `entity1` and `entity2` with the given compliance
    /// and kind; a negative compliance is rejected at configuration time.
    pub fn new_with_compliance(entity1: usize, entity2: usize, compliance: i64, kind: JointKind) -> (r:
        Result<Joint, ConfigError>)
        ensures
            compliance < 0 ==> r == Result::<Joint, ConfigError>::Err(
                ConfigError::NegativeCompliance,
            ),
            compliance >= 0 ==> (r matches Result::Ok(j) && j == (Joint {
                entity1: entity1,
                entity2: entity2,
                local_anchor1: Vec3 { x: 0, y: 0, z: 0 },
                local_anchor2: Vec3 { x: 0, y: 0, z: 0 },
                compliance: compliance,
                damping_lin: 0,
                damping_ang: 0,
                pos_lambda: 0,
                align_lambda: 0,
                kind: kind,
            })),
    {
        if compliance < 0 {
            Err(ConfigError::NegativeCompliance)
        } else {
            Ok(
                Joint {
                    entity1,
                    entity2,
                    local_anchor1: Vec3 { x: 0, y: 0, z: 0 },
                    local_anchor2: Vec3 { x: 0, y: 0, z: 0 },
                    compliance,
                    damping_lin: 0,
                    damping_ang: 0,
                    pos_lambda: 0,
                    align_lambda: 0,
                    kind,
                },
            )
        }
    }

    /// The joint with its first local anchor set.
    pub fn with_local_anchor_1(self, anchor: Vec3) -> (r: Joint)
        ensures
            r == (Joint { local_anchor1: anchor, ..self }),
    {
        Joint { local_anchor1: anchor, ..self }
    }

    /// The joint with its second local anchor set.
    pub fn with_local_anchor_2(self, anchor: Vec3) -> (r: Joint)
        ensures
            r == (Joint { local_anchor2: anchor, ..self }),
    {
        Joint { local_anchor2: anchor, ..self }
    }

    /// The joint with its linear velocity damping set.
    pub fn with_lin_vel_damping(self, damping: i64) -> (r: Joint)
        ensures
            r == (Joint { damping_lin: damping, ..self }),
    {
        Joint { damping_lin: damping, ..self }
    }

    /// The joint with its angular velocity damping set.
    pub fn with_ang_vel_damping(self, damping: i64) -> (r: Joint)
        ensures
            r == (Joint { damping_ang: damping, ..self }),
    {
        Joint { damping_ang: damping, ..self }
    }

    /// The two body indices.
    pub fn entities(&self) -> (r: (usize, usize))
        ensures
            r == (self.entity1, self.entity2),
    {
        (self.entity1, self.entity2)
    }

    /// The linear damping coefficient.
    pub fn damping_lin(&self) -> (r: i64)
        ensures
            r == self.damping_lin,
    {
        self.damping_lin
    }

    /// The angular damping coefficient.
    pub fn damping_ang(&self) -> (r: i64)
        ensures
            r == self.damping_ang,
    {
        self.damping_ang
    }

    /// Clears the accumulated multipliers at the start of a substep.
    pub fn reset_lambda(&mut self)
        ensures
            *final(self) == (Joint { pos_lambda: 0, align_lambda: 0, ..*old(self) }),
    {
        self.pos_lambda = 0;
        self.align_lambda = 0;
    }

    /// One position-correction pass. The positional part limits the
    /// anchor separation (to zero, or to the slider's range along its
    /// axis), the angular part aligns the orientations the kind asks for;
    /// each violated limit becomes an XPBD multiplier increment applied to
    /// both bodies through their generalized inverse masses. Only the two
    /// multipliers change on the joint; only position and rotation change
    /// on a body, and a non-dynamic body is never written at all.
    #[verifier::rlimit(100)]
    pub fn constrain(&mut self, body1: &mut Body, body2: &mut Body, sub_dt: i64)
        requires
            kind_wf(old(self).kind),
        ensures
            (*final(self), *final(body1), *final(body2)) == constrained_s(
                *old(self),
                *old(body1),
                *old(body2),
                sub_dt,
            ),
            *final(self) == (Joint {
                pos_lambda: final(self).pos_lambda,
                align_lambda: final(self).align_lambda,
                ..*old(self)
            }),
            *final(body1) == (Body {
                pos: final(body1).pos,
                rot: final(body1).rot,
                ..*old(body1)
            }),
            *final(body2) == (Body {
                pos: final(body2).pos,
                rot: final(body2).rot,
                ..*old(body2)
            }),
            old(body1).rigid_body != RigidBody::Dynamic ==> *final(body1) == *old(body1),
            old(body2).rigid_body != RigidBody::Dynamic ==> *final(body2) == *old(body2),
            joint_pos_correction_s(*old(self), *old(body1), *old(body2)) == (Vec3 {
                x: 0,
                y: 0,
                z: 0,
            }) && joint_ang_correction_s(*old(self), *old(body1), *old(body2)) == (Vec3 {
                x: 0,
                y: 0,
                z: 0,
            }) ==> *final(body1) == *old(body1) && *final(body2) == *old(body2) && *final(self)
                == *old(self),
    {
        proof {
            reveal(constrained_s);
            crate::fp::lemma_shypot3_zero();
        }
        let r1 = body1.rot.rotate(&self.local_anchor1);
        let r2 = body2.rot.rotate(&self.local_anchor2);

        // Positional degrees of freedom.
        let corr: Vec3 = match self.kind {
            JointKind::Prismatic { free_axis, limit } => {
                let a = body1.rot.rotate(&free_axis);
                let along = limit_distance_along_axis(
                    limit.min,
                    limit.max,
                    &a,
                    &r1,
                    &r2,
                    &body1.pos,
                    &body2.pos,
                );
                let delta = body2.pos.plus(&r2).minus(&body1.pos.plus(&r1));
                let orth = delta.minus(&a.scaled(delta.dot(&a)));
                along.minus(&orth)
            },
            _ => limit_distance(0, 0, &r1, &r2, &body1.pos, &body2.pos),
        };
        let c = corr.length();
        if c > 0 {
            let n = corr.normalized();
            let w1 = body1.gen_inv_mass(&r1, &n);
            let w2 = body2.gen_inv_mass(&r2, &n);
            let alpha_t = compliance_scaled(self.compliance, sub_dt);
            let dl = delta_lambda(c, self.pos_lambda, alpha_t, fp_add(w1, w2));
            self.pos_lambda = fp_add(self.pos_lambda, dl);
            let p = n.scaled(dl);
            body1.apply_shift(&p);
            body1.apply_rot_impulse(&r1.cross(&p));
            let pn = p.neg();
            body2.apply_shift(&pn);
            body2.apply_rot_impulse(&r2.cross(&pn));
        }

        // Angular degrees of freedom.
        let dq: Vec3 = match self.kind {
            JointKind::Spherical => Vec3 { x: 0, y: 0, z: 0 },
            JointKind::Revolute { aligned_axis, angle_limit } => {
                let a1 = body1.rot.rotate(&aligned_axis);
                let a2 = body2.rot.rotate(&aligned_axis);
                let base = a1.cross(&a2);
                match angle_limit {
                    Some(lim) => {
                        let perp = orth_axis(&aligned_axis);
                        let n1 = body1.rot.rotate(&perp);
                        let n2 = body2.rot.rotate(&perp);
                        match limit_angle(&a1, &n1, &n2, lim.min, lim.max, PI_FP) {
                            Some(w) => base.plus(&w),
                            None => base,
                        }
                    },
                    None => base,
                }
            },
            _ => {
                let rel = body1.rot.mul(&body2.rot.inv());
                Vec3 { x: rel.x, y: rel.y, z: rel.z }.scaled(TWO_FP)
            },
        };
        let ca = dq.length();
        if ca > 0 {
            let n = dq.normalized();
            let w1 = fp_add(0, n.dot(&body1.inv_inertia_world().mul_vec(&n)));
            let w2 = fp_add(0, n.dot(&body2.inv_inertia_world().mul_vec(&n)));
            let alpha_t = compliance_scaled(self.compliance, sub_dt);
            let dl = delta_lambda(ca, self.align_lambda, alpha_t, fp_add(w1, w2));
            self.align_lambda = fp_add(self.align_lambda, dl);
            let j = n.scaled(dl);
            body1.apply_rot_impulse(&j);
            body2.apply_rot_impulse(&j.neg());
        }
    }
}

} // verus!
