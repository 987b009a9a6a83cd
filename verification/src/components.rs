//! Per-body and per-collider state: body kind, mass properties, friction,
//! restitution, shapes and their bounding boxes.
//!
//! A mass or inertia always carries its pseudo-inverse beside it: the
//! inverse of zero is zero (such a body is infinitely heavy for the
//! affected quantity), never a fault, and the pair is recomputed whenever
//! the value changes.

use vstd::prelude::*;
use crate::fp::{fp_div, fp_mul, lemma_smul_nonneg, sdiv, smul, FP_ONE};
use crate::mat3::{m3_diagonal, m3_inverse, m3_mul, m3_transpose, Mat3};
use crate::rot::Rot;
use crate::vec3::{v3_add, Vec3};

verus! {

/// How a body takes part in the simulation.
#[derive(Clone, Copy, Debug, PartialEq, Eq, Structural)]
pub enum RigidBody {
    /// Moved by forces, velocity and constraint corrections.
    Dynamic,
    /// Never moves; infinite mass and inertia.
    Static,
    /// Moved only from outside; the solver never writes its state.
    Kinematic,
}

impl RigidBody {
    /// Whether the body is dynamic.
    pub fn is_dynamic(&self) -> (r: bool)
        ensures
            r == (*self == RigidBody::Dynamic),
    {
        *self == RigidBody::Dynamic
    }

    /// Whether the body is static.
    pub fn is_static(&self) -> (r: bool)
        ensures
            r == (*self == RigidBody::Static),
    {
        *self == RigidBody::Static
    }

    /// Whether the body is kinematic.
    pub fn is_kinematic(&self) -> (r: bool)
        ensures
            r == (*self == RigidBody::Kinematic),
    {
        *self == RigidBody::Kinematic
    }
}

impl Default for RigidBody {
    /// Bodies are dynamic unless asked otherwise.
    fn default() -> (r: Self)
        ensures
            r == RigidBody::Dynamic,
    {
        RigidBody::Dynamic
    }
}

/// The pseudo-inverse of a scalar: zero inverts to zero.
pub open spec fn mass_inverse_s(mass: i64) -> i64 {
    sdiv(FP_ONE, mass)
}

/// A body's or collider's mass together with its pseudo-inverse.
#[derive(Clone, Copy, Debug, PartialEq, Eq, Structural)]
pub struct Mass {
    pub mass: i64,
    pub inverse: i64,
}

impl Mass {
    /// The stored inverse is always the pseudo-inverse of the mass.
    pub open spec fn wf(&self) -> bool {
        self.inverse == mass_inverse_s(self.mass)
    }

    /// The mass value.
    pub open spec fn value(&self) -> i64 {
        self.mass
    }

    /// The pseudo-inverse of a mass: `1 / mass`, and zero for a zero mass
    /// (a massless body acts infinitely heavy, which is a documented
    /// choice, not an error).
    pub fn calc_inverse(mass: i64) -> (r: i64)
        ensures
            r == mass_inverse_s(mass),
    {
        if mass != 0 {
            fp_div(FP_ONE, mass)
        } else {
            0
        }
    }

    /// A mass with its inverse computed.
    pub fn new(mass: i64) -> (r: Self)
        ensures
            r.mass == mass,
            r.wf(),
    {
        Mass { mass, inverse: Mass::calc_inverse(mass) }
    }

    /// The stored mass.
    pub fn get(&self) -> (r: i64)
        ensures
            r == self.mass,
    {
        self.mass
    }

    /// The stored pseudo-inverse.
    pub fn inverse(&self) -> (r: i64)
        ensures
            r == self.inverse,
    {
        self.inverse
    }
}

/// A body's or collider's inertia tensor together with its pseudo-inverse.
#[derive(Clone, Copy, Debug, PartialEq, Eq, Structural)]
pub struct Inertia {
    pub inertia: Mat3,
    pub inverse: Mat3,
}

impl Inertia {
    /// The stored inverse is always the pseudo-inverse of the tensor.
    pub open spec fn wf(&self) -> bool {
        self.inverse == m3_inverse(self.inertia)
    }

    /// The tensor value.
    pub open spec fn value(&self) -> Mat3 {
        self.inertia
    }

    /// The pseudo-inverse of an inertia tensor (zero when singular).
    pub fn calc_inverse(inertia: &Mat3) -> (r: Mat3)
        ensures
            r == m3_inverse(*inertia),
    {
        inertia.inverse()
    }

    /// An inertia tensor with its inverse computed.
    pub fn new(inertia: Mat3) -> (r: Self)
        ensures
            r.inertia == inertia,
            r.wf(),
    {
        Inertia { inertia, inverse: Inertia::calc_inverse(&inertia) }
    }

    /// The stored tensor.
    pub fn get(&self) -> (r: Mat3)
        ensures
            r == self.inertia,
    {
        self.inertia
    }

    /// The stored pseudo-inverse.
    pub fn inverse(&self) -> (r: Mat3)
        ensures
            r == self.inverse,
    {
        self.inverse
    }

    /// The world-space tensor `R I R^T` for a body orientation `R`, with
    /// the inverse recomputed.
    pub fn rotated(&self, rot: &Rot) -> (r: Self)
        ensures
            r.inertia == m3_mul(
                m3_mul(
                    crate::mat3::m3_from_quat(rot.x, rot.y, rot.z, rot.w),
                    self.inertia,
                ),
                m3_transpose(crate::mat3::m3_from_quat(rot.x, rot.y, rot.z, rot.w)),
            ),
            r.wf(),
    {
        let rm = Mat3::from_quat(rot.x, rot.y, rot.z, rot.w);
        let rotated = rm.mul_mat(&self.inertia).mul_mat(&rm.transpose());
        Inertia::new(rotated)
    }
}

/// The local center of mass of a body.
#[derive(Clone, Copy, Debug, PartialEq, Eq, Structural)]
pub struct LocalCom(pub Vec3);

/// Bounciness of contacts: 0 is perfectly inelastic, `FP_ONE` perfectly
/// elastic. Two touching bodies' coefficients combine by their average.
#[derive(Clone, Copy, Debug, PartialEq, Eq, Structural)]
pub struct Restitution(pub i64);

impl Default for Restitution {
    /// A slightly bouncy default.
    fn default() -> (r: Self)
        ensures
            r == Restitution(314573int as i64),
    {
        Restitution(314573)
    }
}

/// Coulomb friction coefficients: 0 slides freely, `FP_ONE` grips hard.
/// Two touching bodies' coefficients combine by their average.
#[derive(Clone, Copy, Debug, PartialEq, Eq, Structural)]
pub struct Friction {
    pub dynamic_coefficient: i64,
    pub static_coefficient: i64,
}

impl Friction {
    /// Friction with the same dynamic and static coefficient.
    pub fn new(friction_coefficient: i64) -> (r: Self)
        ensures
            r.dynamic_coefficient == friction_coefficient,
            r.static_coefficient == friction_coefficient,
    {
        Friction {
            dynamic_coefficient: friction_coefficient,
            static_coefficient: friction_coefficient,
        }
    }

    /// No friction at all.
    pub fn zero() -> (r: Self)
        ensures
            r.dynamic_coefficient == 0,
            r.static_coefficient == 0,
    {
        Friction { dynamic_coefficient: 0, static_coefficient: 0 }
    }
}

impl Default for Friction {
    /// A moderate default grip.
    fn default() -> (r: Self)
        ensures
            r.dynamic_coefficient == 314573,
            r.static_coefficient == 314573,
    {
        Friction::new(314573)
    }
}

/// A collision shape, described by plain fixed-point extents. Richer
/// geometry (hulls, meshes) belongs to an external geometry library and is
/// out of this core's scope.
#[derive(Clone, Copy, Debug, PartialEq, Eq, Structural)]
pub enum Shape {
    /// A ball of the given radius.
    Sphere { radius: i64 },
    /// A box of the given half-extents.
    Cuboid { hx: i64, hy: i64, hz: i64 },
}

/// A shape's extents are non-negative.
pub open spec fn shape_wf(s: Shape) -> bool {
    match s {
        Shape::Sphere { radius } => 0 <= radius,
        Shape::Cuboid { hx, hy, hz } => 0 <= hx && 0 <= hy && 0 <= hz,
    }
}

impl Default for Shape {
    /// A unit cube.
    fn default() -> (r: Self)
        ensures
            r == (Shape::Cuboid { hx: 524288int as i64, hy: 524288int as i64, hz: 524288int as i64 }),
    {
        Shape::Cuboid { hx: 524288, hy: 524288, hz: 524288 }
    }
}

/// An axis-aligned bounding box.
#[derive(Clone, Copy, Debug, PartialEq, Eq, Structural)]
pub struct ColliderAabb {
    pub mins: Vec3,
    pub maxs: Vec3,
}

/// The local bounding box of a shape.
pub open spec fn aabb_of_shape(s: Shape) -> ColliderAabb {
    match s {
        Shape::Sphere { radius } => ColliderAabb {
            mins: Vec3 { x: crate::fp::sneg(radius), y: crate::fp::sneg(radius), z: crate::fp::sneg(radius) },
            maxs: Vec3 { x: radius, y: radius, z: radius },
        },
        Shape::Cuboid { hx, hy, hz } => ColliderAabb {
            mins: Vec3 { x: crate::fp::sneg(hx), y: crate::fp::sneg(hy), z: crate::fp::sneg(hz) },
            maxs: Vec3 { x: hx, y: hy, z: hz },
        },
    }
}

impl ColliderAabb {
    /// The local bounding box of a shape.
    pub fn from_shape(shape: &Shape) -> (r: ColliderAabb)
        ensures
            r == aabb_of_shape(*shape),
    {
        match *shape {
            Shape::Sphere { radius } => ColliderAabb {
                mins: Vec3 { x: crate::fp::fp_neg(radius), y: crate::fp::fp_neg(radius), z: crate::fp::fp_neg(radius) },
                maxs: Vec3 { x: radius, y: radius, z: radius },
            },
            Shape::Cuboid { hx, hy, hz } => ColliderAabb {
                mins: Vec3 { x: crate::fp::fp_neg(hx), y: crate::fp::fp_neg(hy), z: crate::fp::fp_neg(hz) },
                maxs: Vec3 { x: hx, y: hy, z: hz },
            },
        }
    }
}

/// `4/3 * pi`, in fixed point (for the ball volume).
pub const FOUR_THIRDS_PI_FP: i64 = 4392265;

/// `2/5`, in fixed point (for the ball inertia).
pub const TWO_FIFTHS_FP: i64 = 419430;

/// `8`, in fixed point (for the box volume from half-extents).
pub const EIGHT_FP: i64 = 8 * FP_ONE;

/// `3`, in fixed point (for the box inertia denominator).
pub const THREE_FP: i64 = 3 * FP_ONE;

/// The mass of a shape at a density: volume times density.
pub open spec fn shape_mass_s(s: Shape, density: i64) -> i64 {
    match s {
        Shape::Sphere { radius } => smul(
            smul(smul(smul(radius, radius), radius), FOUR_THIRDS_PI_FP),
            density,
        ),
        Shape::Cuboid { hx, hy, hz } => smul(smul(smul(smul(hx, hy), hz), EIGHT_FP), density),
    }
}

/// The diagonal of a shape's inertia tensor about its own center, for the
/// mass `m` it was given: `2/5 m r^2` for a ball, `m (b^2 + c^2) / 3` per
/// axis for a box of half-extents.
pub open spec fn shape_inertia_s(s: Shape, m: i64) -> Mat3 {
    match s {
        Shape::Sphere { radius } => {
            let i = smul(smul(TWO_FIFTHS_FP, m), smul(radius, radius))
            ;
            m3_diagonal(i, i, i)
        },
        Shape::Cuboid { hx, hy, hz } => {
            let xx = smul(hx, hx);
            let yy = smul(hy, hy);
            let zz = smul(hz, hz);
            m3_diagonal(
                sdiv(smul(m, crate::fp::sadd(yy, zz)), THREE_FP),
                sdiv(smul(m, crate::fp::sadd(xx, zz)), THREE_FP),
                sdiv(smul(m, crate::fp::sadd(xx, yy)), THREE_FP),
            )
        },
    }
}

/// Mass properties derived from a collider's shape and density. These are
/// what a collider adds to its body's aggregate mass, inertia and local
/// center of mass.
#[derive(Clone, Copy, Debug, PartialEq, Eq, Structural)]
pub struct ColliderMassProperties {
    pub mass: Mass,
    pub inertia: Inertia,
    pub local_center_of_mass: LocalCom,
    pub density: i64,
}

impl ColliderMassProperties {
    /// The contribution carries well-formed mass and inertia pairs.
    pub open spec fn wf(&self) -> bool {
        self.mass.wf() && self.inertia.wf()
    }

    /// No contribution at all (also the state before a collider is first
    /// accounted).
    pub fn zero() -> (r: Self)
        ensures
            r.mass.value() == 0,
            r.inertia.value() == crate::mat3::m3_zero(),
            r.local_center_of_mass.0 == (Vec3 { x: 0, y: 0, z: 0 }),
            r.density == 0,
            r.wf(),
    {
        ColliderMassProperties {
            mass: Mass::new(0),
            inertia: Inertia::new(Mat3::zero()),
            local_center_of_mass: LocalCom(Vec3 { x: 0, y: 0, z: 0 }),
            density: 0,
        }
    }

    /// Computes the mass properties of a shape at a density: the exact
    /// fixed-point volume-times-density mass and the shape's inertia
    /// diagonal, both with their pseudo-inverses. A zero-volume or
    /// zero-density collider contributes zero mass and stays well-defined.
    pub fn from_shape_and_density(shape: &Shape, density: i64) -> (r: Self)
        requires
            shape_wf(*shape),
            0 <= density,
        ensures
            r.mass.value() == shape_mass_s(*shape, density),
            0 <= r.mass.value(),
            r.inertia.value() == shape_inertia_s(*shape, shape_mass_s(*shape, density)),
            r.local_center_of_mass.0 == (Vec3 { x: 0, y: 0, z: 0 }),
            r.density == density,
            r.wf(),
    {
        let m: i64 = match *shape {
            Shape::Sphere { radius } => {
                proof {
                    lemma_smul_nonneg(radius, radius);
                    lemma_smul_nonneg(smul(radius, radius), radius);
                    lemma_smul_nonneg(smul(smul(radius, radius), radius), FOUR_THIRDS_PI_FP);
                    lemma_smul_nonneg(
                        smul(smul(smul(radius, radius), radius), FOUR_THIRDS_PI_FP),
                        density,
                    );
                }
                fp_mul(fp_mul(fp_mul(fp_mul(radius, radius), radius), FOUR_THIRDS_PI_FP), density)
            },
            Shape::Cuboid { hx, hy, hz } => {
                proof {
                    lemma_smul_nonneg(hx, hy);
                    lemma_smul_nonneg(smul(hx, hy), hz);
                    lemma_smul_nonneg(smul(smul(hx, hy), hz), EIGHT_FP);
                    lemma_smul_nonneg(smul(smul(smul(hx, hy), hz), EIGHT_FP), density);
                }
                fp_mul(fp_mul(fp_mul(fp_mul(hx, hy), hz), EIGHT_FP), density)
            },
        };
        let inertia: Mat3 = match *shape {
            Shape::Sphere { radius } => {
                let i = fp_mul(fp_mul(TWO_FIFTHS_FP, m), fp_mul(radius, radius));
                Mat3::diagonal(i, i, i)
            },
            Shape::Cuboid { hx, hy, hz } => {
                let xx = fp_mul(hx, hx);
                let yy = fp_mul(hy, hy);
                let zz = fp_mul(hz, hz);
                Mat3::diagonal(
                    fp_div(fp_mul(m, crate::fp::fp_add(yy, zz)), THREE_FP),
                    fp_div(fp_mul(m, crate::fp::fp_add(xx, zz)), THREE_FP),
                    fp_div(fp_mul(m, crate::fp::fp_add(xx, yy)), THREE_FP),
                )
            },
        };
        ColliderMassProperties {
            mass: Mass::new(m),
            inertia: Inertia::new(inertia),
            local_center_of_mass: LocalCom(Vec3 { x: 0, y: 0, z: 0 }),
            density,
        }
    }
}

} // verus!
