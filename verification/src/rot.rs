//! The rotation primitive: a fixed-point quaternion.
//!
//! An orientation is a unit quaternion up to fixed-point rounding;
//! [`Rot::normalize`] restores unit length after repeated incremental
//! updates so drift never accumulates. Composition, inversion and vector
//! rotation are each pinned by an exact spec mirror.

use vstd::prelude::*;
use crate::fp::{fp_add, fp_div, fp_half, fp_mul, fp_sub, sadd, sdiv, shalf, smul, ssub, FP_ONE};
use crate::trig::{asin_fp, asin_s, clamp_unit, clamp_unit_s, sin_cos, sincos_s, TWO_PI_FP};
use crate::vec3::{v3_add, v3_cross, v3_len, v3_neg, v3_normalize, v3_scale, Vec3};

verus! {

/// An orientation: a quaternion with fixed-point components.
#[derive(Clone, Copy, Debug, PartialEq, Eq, Structural)]
pub struct Rot {
    pub x: i64,
    pub y: i64,
    pub z: i64,
    pub w: i64,
}

/// The identity rotation.
pub open spec fn q_identity() -> Rot {
    Rot { x: 0, y: 0, z: 0, w: FP_ONE }
}

/// Quaternion composition (Hamilton product), in fixed point.
pub open spec fn q_mul(a: Rot, b: Rot) -> Rot {
    Rot {
        x: ssub(sadd(sadd(smul(a.w, b.x), smul(a.x, b.w)), smul(a.y, b.z)), smul(a.z, b.y)),
        y: ssub(sadd(sadd(smul(a.w, b.y), smul(a.y, b.w)), smul(a.z, b.x)), smul(a.x, b.z)),
        z: ssub(sadd(sadd(smul(a.w, b.z), smul(a.z, b.w)), smul(a.x, b.y)), smul(a.y, b.x)),
        w: ssub(ssub(ssub(smul(a.w, b.w), smul(a.x, b.x)), smul(a.y, b.y)), smul(a.z, b.z)),
    }
}

/// The conjugate, which inverts a unit quaternion.
pub open spec fn q_conj(a: Rot) -> Rot {
    Rot { x: ssub(0, a.x), y: ssub(0, a.y), z: ssub(0, a.z), w: a.w }
}

/// The vector part.
pub open spec fn q_vec(a: Rot) -> Vec3 {
    Vec3 { x: a.x, y: a.y, z: a.z }
}

/// Rotation of a vector: `v + w * t + qv x t` with `t = 2 (qv x v)`.
pub open spec fn q_rotate(q: Rot, v: Vec3) -> Vec3 {
    let qv = q_vec(q);
    let t0 = v3_cross(qv, v);
    let t = v3_add(t0, t0);
    v3_add(v3_add(v, v3_scale(t, q.w)), v3_cross(qv, t))
}

/// Component-wise sum (used by the incremental orientation update).
pub open spec fn q_add(a: Rot, b: Rot) -> Rot {
    Rot { x: sadd(a.x, b.x), y: sadd(a.y, b.y), z: sadd(a.z, b.z), w: sadd(a.w, b.w) }
}

/// All components scaled by a fixed-point factor.
pub open spec fn q_scale(a: Rot, s: i64) -> Rot {
    Rot { x: smul(a.x, s), y: smul(a.y, s), z: smul(a.z, s), w: smul(a.w, s) }
}

/// The fixed-point length of the quaternion: the components squared and
/// summed exactly, then rooted (see [`crate::fp::shypot4`]).
pub open spec fn q_len(a: Rot) -> i64 {
    crate::fp::shypot4(a.x, a.y, a.z, a.w)
}

/// Each component divided by the length; the identity when the length is
/// zero (fully degenerate input).
pub open spec fn q_normalize(a: Rot) -> Rot {
    let n = q_len(a);
    if n == 0 {
        q_identity()
    } else {
        Rot { x: sdiv(a.x, n), y: sdiv(a.y, n), z: sdiv(a.z, n), w: sdiv(a.w, n) }
    }
}

/// The quaternion of a rotation by `angle` about a unit `axis`:
/// `(axis * sin(angle/2), cos(angle/2))`.
pub open spec fn q_from_axis_angle(axis: Vec3, angle: i64) -> Rot {
    let h = shalf(angle);
    let sc = sincos_s(h);
    Rot { x: smul(axis.x, sc.0), y: smul(axis.y, sc.0), z: smul(axis.z, sc.0), w: sc.1 }
}

/// The axis and angle a quaternion stands for: the normalized vector
/// part (flipped when the scalar part is negative, so the angle can stay
/// non-negative) and twice the arcsine of the vector part's length; the
/// first coordinate axis with a zero angle for the identity.
pub open spec fn q_to_axis_angle(q: Rot) -> (Vec3, i64) {
    let qv = q_vec(q);
    let l = v3_len(qv);
    if l == 0 {
        (Vec3 { x: FP_ONE, y: 0, z: 0 }, 0)
    } else {
        let axis = v3_normalize(qv);
        let half = asin_s(clamp_unit_s(l));
        let ang = sadd(half, half);
        if q.w >= 0 {
            (axis, ang)
        } else {
            (v3_neg(axis), ang)
        }
    }
}

impl Rot {
    /// The identity rotation.
    pub fn identity() -> (r: Rot)
        ensures
            r == q_identity(),
    {
        Rot { x: 0, y: 0, z: 0, w: FP_ONE }
    }

    /// Builds a quaternion from its fixed-point components.
    pub fn from_xyzw(x: i64, y: i64, z: i64, w: i64) -> (r: Rot)
        ensures
            r == (Rot { x: x, y: y, z: z, w: w }),
    {
        Rot { x, y, z, w }
    }

    /// Quaternion composition.
    pub fn mul(&self, rhs: &Rot) -> (r: Rot)
        ensures
            r == q_mul(*self, *rhs),
    {
        Rot {
            x: fp_sub(
                fp_add(fp_add(fp_mul(self.w, rhs.x), fp_mul(self.x, rhs.w)), fp_mul(self.y, rhs.z)),
                fp_mul(self.z, rhs.y),
            ),
            y: fp_sub(
                fp_add(fp_add(fp_mul(self.w, rhs.y), fp_mul(self.y, rhs.w)), fp_mul(self.z, rhs.x)),
                fp_mul(self.x, rhs.z),
            ),
            z: fp_sub(
                fp_add(fp_add(fp_mul(self.w, rhs.z), fp_mul(self.z, rhs.w)), fp_mul(self.x, rhs.y)),
                fp_mul(self.y, rhs.x),
            ),
            w: fp_sub(
                fp_sub(fp_sub(fp_mul(self.w, rhs.w), fp_mul(self.x, rhs.x)), fp_mul(self.y, rhs.y)),
                fp_mul(self.z, rhs.z),
            ),
        }
    }

    /// The inverse of a unit rotation (the conjugate).
    pub fn inv(&self) -> (r: Rot)
        ensures
            r == q_conj(*self),
    {
        Rot { x: fp_sub(0, self.x), y: fp_sub(0, self.y), z: fp_sub(0, self.z), w: self.w }
    }

    /// Rotates a vector by this orientation.
    pub fn rotate(&self, v: &Vec3) -> (r: Vec3)
        ensures
            r == q_rotate(*self, *v),
    {
        let qv = Vec3 { x: self.x, y: self.y, z: self.z };
        let t0 = qv.cross(v);
        let t = t0.plus(&t0);
        v.plus(&t.scaled(self.w)).plus(&qv.cross(&t))
    }

    /// Rotates a vector by this orientation.
    pub fn rotate_vec3(&self, v: &Vec3) -> (r: Vec3)
        ensures
            r == q_rotate(*self, *v),
    {
        self.rotate(v)
    }

    /// Component-wise sum.
    pub fn plus(&self, o: &Rot) -> (r: Rot)
        ensures
            r == q_add(*self, *o),
    {
        Rot {
            x: fp_add(self.x, o.x),
            y: fp_add(self.y, o.y),
            z: fp_add(self.z, o.z),
            w: fp_add(self.w, o.w),
        }
    }

    /// All components scaled by a fixed-point factor.
    pub fn scaled(&self, s: i64) -> (r: Rot)
        ensures
            r == q_scale(*self, s),
    {
        Rot {
            x: fp_mul(self.x, s),
            y: fp_mul(self.y, s),
            z: fp_mul(self.z, s),
            w: fp_mul(self.w, s),
        }
    }

    /// Restores unit length after incremental updates (numerical drift is
    /// corrected here, never surfaced as an error).
    pub fn normalize(&self) -> (r: Rot)
        ensures
            r == q_normalize(*self),
    {
        let n = crate::fp::fp_hypot4(self.x, self.y, self.z, self.w);
        if n == 0 {
            Rot::identity()
        } else {
            Rot {
                x: fp_div(self.x, n),
                y: fp_div(self.y, n),
                z: fp_div(self.z, n),
                w: fp_div(self.w, n),
            }
        }
    }

    /// The axis and angle this rotation stands for; see
    /// [`q_to_axis_angle`].
    pub fn to_axis_angle(&self) -> (r: (Vec3, i64))
        ensures
            r == q_to_axis_angle(*self),
    {
        let qv = Vec3 { x: self.x, y: self.y, z: self.z };
        let l = qv.length();
        if l == 0 {
            (Vec3 { x: FP_ONE, y: 0, z: 0 }, 0)
        } else {
            let axis = qv.normalized();
            let half = asin_fp(clamp_unit(l));
            let ang = fp_add(half, half);
            if self.w >= 0 {
                (axis, ang)
            } else {
                (axis.neg(), ang)
            }
        }
    }

    /// The rotation by `angle` (fixed-point radians, within one turn)
    /// about a unit `axis`.
    pub fn from_axis_angle(axis: &Vec3, angle: i64) -> (r: Rot)
        requires
            -TWO_PI_FP <= angle <= TWO_PI_FP,
        ensures
            r == q_from_axis_angle(*axis, angle),
    {
        let h = fp_half(angle);
        let sc = sin_cos(h);
        Rot {
            x: fp_mul(axis.x, sc.0),
            y: fp_mul(axis.y, sc.0),
            z: fp_mul(axis.z, sc.0),
            w: sc.1,
        }
    }
}

impl Default for Rot {
    /// The identity rotation.
    fn default() -> (r: Rot)
        ensures
            r == q_identity(),
    {
        Rot::identity()
    }
}

} // verus!
