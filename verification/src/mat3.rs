//! Fixed-point 3x3 matrices, used for inertia tensors.

use vstd::prelude::*;
use crate::fp::{fp_add, fp_div, fp_mul, fp_sub, sadd, sdiv, smul, ssub, FP_ONE};
use crate::vec3::{v3_add, v3_cross, v3_dot, v3_scale, v3_sub, Vec3};

verus! {

/// A 3x3 matrix of fixed-point entries, stored by rows.
#[derive(Clone, Copy, Debug, PartialEq, Eq, Structural)]
pub struct Mat3 {
    pub r0: Vec3,
    pub r1: Vec3,
    pub r2: Vec3,
}

/// The zero matrix.
pub open spec fn m3_zero() -> Mat3 {
    Mat3 {
        r0: Vec3 { x: 0, y: 0, z: 0 },
        r1: Vec3 { x: 0, y: 0, z: 0 },
        r2: Vec3 { x: 0, y: 0, z: 0 },
    }
}

/// The diagonal matrix with the given fixed-point diagonal.
pub open spec fn m3_diagonal(a: i64, b: i64, c: i64) -> Mat3 {
    Mat3 {
        r0: Vec3 { x: a, y: 0, z: 0 },
        r1: Vec3 { x: 0, y: b, z: 0 },
        r2: Vec3 { x: 0, y: 0, z: c },
    }
}

/// Row-wise saturating sum.
pub open spec fn m3_add(m: Mat3, n: Mat3) -> Mat3 {
    Mat3 { r0: v3_add(m.r0, n.r0), r1: v3_add(m.r1, n.r1), r2: v3_add(m.r2, n.r2) }
}

/// Row-wise saturating difference.
pub open spec fn m3_sub(m: Mat3, n: Mat3) -> Mat3 {
    Mat3 { r0: v3_sub(m.r0, n.r0), r1: v3_sub(m.r1, n.r1), r2: v3_sub(m.r2, n.r2) }
}

/// All entries scaled by a fixed-point factor.
pub open spec fn m3_scale(m: Mat3, s: i64) -> Mat3 {
    Mat3 { r0: v3_scale(m.r0, s), r1: v3_scale(m.r1, s), r2: v3_scale(m.r2, s) }
}

/// The transpose.
pub open spec fn m3_transpose(m: Mat3) -> Mat3 {
    Mat3 {
        r0: Vec3 { x: m.r0.x, y: m.r1.x, z: m.r2.x },
        r1: Vec3 { x: m.r0.y, y: m.r1.y, z: m.r2.y },
        r2: Vec3 { x: m.r0.z, y: m.r1.z, z: m.r2.z },
    }
}

/// Matrix-vector product: each row dotted with the vector.
pub open spec fn m3_mul_vec(m: Mat3, v: Vec3) -> Vec3 {
    Vec3 { x: v3_dot(m.r0, v), y: v3_dot(m.r1, v), z: v3_dot(m.r2, v) }
}

/// Matrix product: rows of `m` dotted with columns of `n`.
pub open spec fn m3_mul(m: Mat3, n: Mat3) -> Mat3 {
    let t = m3_transpose(n);
    Mat3 { r0: m3_mul_vec(t, m.r0), r1: m3_mul_vec(t, m.r1), r2: m3_mul_vec(t, m.r2) }
}

/// The determinant: the scalar triple product of the rows.
pub open spec fn m3_det(m: Mat3) -> i64 {
    v3_dot(m.r0, v3_cross(m.r1, m.r2))
}

/// The inverse by cofactors; the zero matrix when the determinant is zero,
/// so a singular inertia inverts to zero (the body is infinitely stiff in
/// the affected axes) rather than faulting.
pub open spec fn m3_inverse(m: Mat3) -> Mat3 {
    let det = m3_det(m);
    if det == 0 {
        m3_zero()
    } else {
        let c0 = v3_cross(m.r1, m.r2);
        let c1 = v3_cross(m.r2, m.r0);
        let c2 = v3_cross(m.r0, m.r1);
        Mat3 {
            r0: Vec3 { x: sdiv(c0.x, det), y: sdiv(c1.x, det), z: sdiv(c2.x, det) },
            r1: Vec3 { x: sdiv(c0.y, det), y: sdiv(c1.y, det), z: sdiv(c2.y, det) },
            r2: Vec3 { x: sdiv(c0.z, det), y: sdiv(c1.z, det), z: sdiv(c2.z, det) },
        }
    }
}

/// The rotation matrix of a unit quaternion.
pub open spec fn m3_from_quat(x: i64, y: i64, z: i64, w: i64) -> Mat3 {
    let xx = smul(x, x);
    let yy = smul(y, y);
    let zz = smul(z, z);
    let xy = smul(x, y);
    let xz = smul(x, z);
    let yz = smul(y, z);
    let xw = smul(x, w);
    let yw = smul(y, w);
    let zw = smul(z, w);
    Mat3 {
        r0: Vec3 {
            x: ssub(FP_ONE, sadd(sadd(yy, zz), sadd(yy, zz))),
            y: ssub(sadd(xy, xy), sadd(zw, zw)),
            z: sadd(sadd(xz, xz), sadd(yw, yw)),
        },
        r1: Vec3 {
            x: sadd(sadd(xy, xy), sadd(zw, zw)),
            y: ssub(FP_ONE, sadd(sadd(xx, zz), sadd(xx, zz))),
            z: ssub(sadd(yz, yz), sadd(xw, xw)),
        },
        r2: Vec3 {
            x: ssub(sadd(xz, xz), sadd(yw, yw)),
            y: sadd(sadd(yz, yz), sadd(xw, xw)),
            z: ssub(FP_ONE, sadd(sadd(xx, yy), sadd(xx, yy))),
        },
    }
}

impl Mat3 {
    /// The zero matrix.
    pub fn zero() -> (r: Mat3)
        ensures
            r == m3_zero(),
    {
        let z = Vec3 { x: 0, y: 0, z: 0 };
        Mat3 { r0: z, r1: z, r2: z }
    }

    /// The diagonal matrix with the given fixed-point diagonal.
    pub fn diagonal(a: i64, b: i64, c: i64) -> (r: Mat3)
        ensures
            r == m3_diagonal(a, b, c),
    {
        Mat3 {
            r0: Vec3 { x: a, y: 0, z: 0 },
            r1: Vec3 { x: 0, y: b, z: 0 },
            r2: Vec3 { x: 0, y: 0, z: c },
        }
    }

    /// Row-wise saturating sum.
    pub fn plus(&self, n: &Mat3) -> (r: Mat3)
        ensures
            r == m3_add(*self, *n),
    {
        Mat3 { r0: self.r0.plus(&n.r0), r1: self.r1.plus(&n.r1), r2: self.r2.plus(&n.r2) }
    }

    /// Row-wise saturating difference.
    pub fn minus(&self, n: &Mat3) -> (r: Mat3)
        ensures
            r == m3_sub(*self, *n),
    {
        Mat3 { r0: self.r0.minus(&n.r0), r1: self.r1.minus(&n.r1), r2: self.r2.minus(&n.r2) }
    }

    /// All entries scaled by a fixed-point factor.
    pub fn scaled(&self, s: i64) -> (r: Mat3)
        ensures
            r == m3_scale(*self, s),
    {
        Mat3 { r0: self.r0.scaled(s), r1: self.r1.scaled(s), r2: self.r2.scaled(s) }
    }

    /// The transpose.
    pub fn transpose(&self) -> (r: Mat3)
        ensures
            r == m3_transpose(*self),
    {
        Mat3 {
            r0: Vec3 { x: self.r0.x, y: self.r1.x, z: self.r2.x },
            r1: Vec3 { x: self.r0.y, y: self.r1.y, z: self.r2.y },
            r2: Vec3 { x: self.r0.z, y: self.r1.z, z: self.r2.z },
        }
    }

    /// Matrix-vector product.
    pub fn mul_vec(&self, v: &Vec3) -> (r: Vec3)
        ensures
            r == m3_mul_vec(*self, *v),
    {
        Vec3 { x: self.r0.dot(v), y: self.r1.dot(v), z: self.r2.dot(v) }
    }

    /// Matrix product.
    pub fn mul_mat(&self, n: &Mat3) -> (r: Mat3)
        ensures
            r == m3_mul(*self, *n),
    {
        let t = n.transpose();
        Mat3 { r0: t.mul_vec(&self.r0), r1: t.mul_vec(&self.r1), r2: t.mul_vec(&self.r2) }
    }

    /// The determinant.
    pub fn det(&self) -> (r: i64)
        ensures
            r == m3_det(*self),
    {
        self.r0.dot(&self.r1.cross(&self.r2))
    }

    /// The inverse by cofactors; the zero matrix when singular.
    pub fn inverse(&self) -> (r: Mat3)
        ensures
            r == m3_inverse(*self),
    {
        let det = self.det();
        if det == 0 {
            Mat3::zero()
        } else {
            let c0 = self.r1.cross(&self.r2);
            let c1 = self.r2.cross(&self.r0);
            let c2 = self.r0.cross(&self.r1);
            Mat3 {
                r0: Vec3 { x: fp_div(c0.x, det), y: fp_div(c1.x, det), z: fp_div(c2.x, det) },
                r1: Vec3 { x: fp_div(c0.y, det), y: fp_div(c1.y, det), z: fp_div(c2.y, det) },
                r2: Vec3 { x: fp_div(c0.z, det), y: fp_div(c1.z, det), z: fp_div(c2.z, det) },
            }
        }
    }

    /// The rotation matrix of a unit quaternion given by components.
    pub fn from_quat(x: i64, y: i64, z: i64, w: i64) -> (r: Mat3)
        ensures
            r == m3_from_quat(x, y, z, w),
    {
        let xx = fp_mul(x, x);
        let yy = fp_mul(y, y);
        let zz = fp_mul(z, z);
        let xy = fp_mul(x, y);
        let xz = fp_mul(x, z);
        let yz = fp_mul(y, z);
        let xw = fp_mul(x, w);
        let yw = fp_mul(y, w);
        let zw = fp_mul(z, w);
        Mat3 {
            r0: Vec3 {
                x: fp_sub(FP_ONE, fp_add(fp_add(yy, zz), fp_add(yy, zz))),
                y: fp_sub(fp_add(xy, xy), fp_add(zw, zw)),
                z: fp_add(fp_add(xz, xz), fp_add(yw, yw)),
            },
            r1: Vec3 {
                x: fp_add(fp_add(xy, xy), fp_add(zw, zw)),
                y: fp_sub(FP_ONE, fp_add(fp_add(xx, zz), fp_add(xx, zz))),
                z: fp_sub(fp_add(yz, yz), fp_add(xw, xw)),
            },
            r2: Vec3 {
                x: fp_sub(fp_add(xz, xz), fp_add(yw, yw)),
                y: fp_add(fp_add(yz, yz), fp_add(xw, xw)),
                z: fp_sub(FP_ONE, fp_add(fp_add(xx, yy), fp_add(xx, yy))),
            },
        }
    }
}

} // verus!
