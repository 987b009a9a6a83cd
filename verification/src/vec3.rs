//! Three-component fixed-point vectors.
//!
//! Positions, velocities, forces, torques and anchor offsets are all held
//! as [`Vec3`] values whose components follow the arithmetic of [`crate::fp`].

use vstd::prelude::*;
use crate::fp::{fp_add, fp_mul, fp_neg, fp_sub, sadd, smul, sneg, ssub};

verus! {

/// A vector of three fixed-point components.
#[derive(Clone, Copy, Debug, PartialEq, Eq, Structural)]
pub struct Vec3 {
    pub x: i64,
    pub y: i64,
    pub z: i64,
}

/// Component-wise saturating sum.
pub open spec fn v3_add(a: Vec3, b: Vec3) -> Vec3 {
    Vec3 { x: sadd(a.x, b.x), y: sadd(a.y, b.y), z: sadd(a.z, b.z) }
}

/// Component-wise saturating difference.
pub open spec fn v3_sub(a: Vec3, b: Vec3) -> Vec3 {
    Vec3 { x: ssub(a.x, b.x), y: ssub(a.y, b.y), z: ssub(a.z, b.z) }
}

/// Component-wise negation.
pub open spec fn v3_neg(a: Vec3) -> Vec3 {
    Vec3 { x: sneg(a.x), y: sneg(a.y), z: sneg(a.z) }
}

/// The vector scaled by a fixed-point factor.
pub open spec fn v3_scale(a: Vec3, s: i64) -> Vec3 {
    Vec3 { x: smul(a.x, s), y: smul(a.y, s), z: smul(a.z, s) }
}

/// The fixed-point dot product, summed left to right.
pub open spec fn v3_dot(a: Vec3, b: Vec3) -> i64 {
    sadd(sadd(smul(a.x, b.x), smul(a.y, b.y)), smul(a.z, b.z))
}

/// The fixed-point cross product.
pub open spec fn v3_cross(a: Vec3, b: Vec3) -> Vec3 {
    Vec3 {
        x: ssub(smul(a.y, b.z), smul(a.z, b.y)),
        y: ssub(smul(a.z, b.x), smul(a.x, b.z)),
        z: ssub(smul(a.x, b.y), smul(a.y, b.x)),
    }
}

/// The squared length (the dot product of the vector with itself).
pub open spec fn v3_len2(a: Vec3) -> i64 {
    v3_dot(a, a)
}

/// The fixed-point length: the components squared and summed exactly,
/// then rooted (see [`crate::fp::shypot3`]), so that separations far
/// below one unit still measure as nonzero.
pub open spec fn v3_len(a: Vec3) -> i64 {
    crate::fp::shypot3(a.x, a.y, a.z)
}

/// The vector scaled to unit length (zero stays zero).
pub open spec fn v3_normalize(a: Vec3) -> Vec3 {
    let n = v3_len(a);
    if n == 0 {
        Vec3 { x: 0, y: 0, z: 0 }
    } else {
        Vec3 { x: crate::fp::sdiv(a.x, n), y: crate::fp::sdiv(a.y, n), z: crate::fp::sdiv(a.z, n) }
    }
}

impl Vec3 {
    /// The zero vector.
    pub fn zero() -> (r: Vec3)
        ensures
            r == (Vec3 { x: 0, y: 0, z: 0 }),
    {
        Vec3 { x: 0, y: 0, z: 0 }
    }

    /// Builds a vector from its fixed-point components.
    pub fn new(x: i64, y: i64, z: i64) -> (r: Vec3)
        ensures
            r == (Vec3 { x: x, y: y, z: z }),
    {
        Vec3 { x, y, z }
    }

    /// Component-wise saturating sum.
    pub fn plus(&self, o: &Vec3) -> (r: Vec3)
        ensures
            r == v3_add(*self, *o),
    {
        Vec3 { x: fp_add(self.x, o.x), y: fp_add(self.y, o.y), z: fp_add(self.z, o.z) }
    }

    /// Component-wise saturating difference.
    pub fn minus(&self, o: &Vec3) -> (r: Vec3)
        ensures
            r == v3_sub(*self, *o),
    {
        Vec3 { x: fp_sub(self.x, o.x), y: fp_sub(self.y, o.y), z: fp_sub(self.z, o.z) }
    }

    /// Component-wise negation.
    pub fn neg(&self) -> (r: Vec3)
        ensures
            r == v3_neg(*self),
    {
        Vec3 { x: fp_neg(self.x), y: fp_neg(self.y), z: fp_neg(self.z) }
    }

    /// The vector scaled by a fixed-point factor.
    pub fn scaled(&self, s: i64) -> (r: Vec3)
        ensures
            r == v3_scale(*self, s),
    {
        Vec3 { x: fp_mul(self.x, s), y: fp_mul(self.y, s), z: fp_mul(self.z, s) }
    }

    /// The fixed-point dot product.
    pub fn dot(&self, o: &Vec3) -> (r: i64)
        ensures
            r == v3_dot(*self, *o),
    {
        fp_add(fp_add(fp_mul(self.x, o.x), fp_mul(self.y, o.y)), fp_mul(self.z, o.z))
    }

    /// The fixed-point cross product.
    pub fn cross(&self, o: &Vec3) -> (r: Vec3)
        ensures
            r == v3_cross(*self, *o),
    {
        Vec3 {
            x: fp_sub(fp_mul(self.y, o.z), fp_mul(self.z, o.y)),
            y: fp_sub(fp_mul(self.z, o.x), fp_mul(self.x, o.z)),
            z: fp_sub(fp_mul(self.x, o.y), fp_mul(self.y, o.x)),
        }
    }

    /// The squared length.
    pub fn length_squared(&self) -> (r: i64)
        ensures
            r == v3_len2(*self),
    {
        self.dot(self)
    }

    /// The fixed-point length.
    pub fn length(&self) -> (r: i64)
        ensures
            r == v3_len(*self),
    {
        crate::fp::fp_hypot3(self.x, self.y, self.z)
    }

    /// The vector scaled to unit length (zero stays zero).
    pub fn normalized(&self) -> (r: Vec3)
        ensures
            r == v3_normalize(*self),
    {
        let n = self.length();
        if n == 0 {
            Vec3 { x: 0, y: 0, z: 0 }
        } else {
            Vec3 {
                x: crate::fp::fp_div(self.x, n),
                y: crate::fp::fp_div(self.y, n),
                z: crate::fp::fp_div(self.z, n),
            }
        }
    }
}

} // verus!
