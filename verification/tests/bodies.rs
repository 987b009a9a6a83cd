//! Bodies, mass properties and their aggregation.

use xpbd::body::Body;
use xpbd::components::{
    ColliderMassProperties, Friction, Mass, RigidBody, Shape, FOUR_THIRDS_PI_FP,
};
use xpbd::fp::FP_ONE;
use xpbd::resources::{ConfigError, NumPosIters, NumSubsteps};
use xpbd::rot::Rot;
use xpbd::vec3::Vec3;

fn fp(x: f64) -> i64 {
    (x * FP_ONE as f64).round() as i64
}

fn to_f(x: i64) -> f64 {
    x as f64 / FP_ONE as f64
}

#[test]
fn body_builder_accepts_vec_3d() {
    let rot = Rot::from_axis_angle(&Vec3::new(FP_ONE, 0, 0), fp(0.123));
    let body = Body::new_dynamic()
        .with_ang_vel(Vec3::new(FP_ONE, 0, 0))
        .with_lin_vel(Vec3::new(2 * FP_ONE, 3 * FP_ONE, 4 * FP_ONE))
        .with_pos(Vec3::new(5 * FP_ONE, 6 * FP_ONE, 7 * FP_ONE))
        .with_rot(rot);

    assert_eq!(body.ang_vel, Vec3::new(FP_ONE, 0, 0));
    assert_eq!(body.lin_vel, Vec3::new(2 * FP_ONE, 3 * FP_ONE, 4 * FP_ONE));
    assert_eq!(body.pos, Vec3::new(5 * FP_ONE, 6 * FP_ONE, 7 * FP_ONE));
    assert_eq!(body.rot, rot);
    // The stored quaternion is the expected axis-angle rotation.
    assert!((to_f(body.rot.x) - (0.123f64 / 2.0).sin()).abs() < 1e-3);
    assert!((to_f(body.rot.w) - (0.123f64 / 2.0).cos()).abs() < 1e-3);
}

#[test]
fn axis_angle_round_trips_through_the_quaternion() {
    let axis = Vec3::new(0, FP_ONE, 0);
    let q = Rot::from_axis_angle(&axis, fp(0.8));
    let (axis2, angle2) = q.to_axis_angle();
    assert!((to_f(angle2) - 0.8).abs() < 5e-3, "angle {}", to_f(angle2));
    assert!((to_f(axis2.y) - 1.0).abs() < 1e-3);
    assert!(to_f(axis2.x).abs() < 1e-3 && to_f(axis2.z).abs() < 1e-3);
    // The identity reports a zero angle.
    let (_, zero_angle) = Rot::identity().to_axis_angle();
    assert_eq!(zero_angle, 0);
}

#[test]
fn mass_inverse_is_the_pseudo_inverse() {
    let m = Mass::new(2 * FP_ONE);
    assert_eq!(m.inverse(), FP_ONE / 2);
    let zero = Mass::new(0);
    assert_eq!(zero.inverse(), 0);
    assert_eq!(Mass::calc_inverse(0), 0);
}

#[test]
fn sphere_mass_properties_have_the_exact_formula_value() {
    // Unit radius, unit density: the fixed-point mass is exactly the
    // 4/3*pi constant, since every factor is exactly one.
    let props = ColliderMassProperties::from_shape_and_density(
        &Shape::Sphere { radius: FP_ONE },
        FP_ONE,
    );
    assert_eq!(props.mass.get(), FOUR_THIRDS_PI_FP);
    assert!((to_f(props.mass.get()) - 4.0 / 3.0 * std::f64::consts::PI).abs() < 1e-4);
}

#[test]
fn mass_aggregation_adds_and_round_trips() {
    let m1 = fp(2.5);
    let m2 = fp(4.0);
    let p1 = ColliderMassProperties::from_shape_and_density(
        &Shape::Cuboid { hx: FP_ONE, hy: FP_ONE, hz: FP_ONE },
        m1 / 8,
    );
    let p2 = ColliderMassProperties::from_shape_and_density(
        &Shape::Cuboid { hx: FP_ONE, hy: FP_ONE, hz: FP_ONE },
        m2 / 8,
    );
    let mut body = Body::new_dynamic();
    body.add_mass_props(&p1);
    body.add_mass_props(&p2);
    // Aggregate mass is the exact sum, inverse mass its pseudo-inverse.
    assert_eq!(body.mass.get(), p1.mass.get() + p2.mass.get());
    assert!(
        (to_f(body.mass.inverse()) - 1.0 / to_f(body.mass.get())).abs() < 1e-4
    );
    let snapshot = body;
    // Removing one contribution restores the other exactly.
    body.add_mass_props(&p1);
    body.remove_mass_props(&p1);
    assert_eq!(body.mass, snapshot.mass);
    assert_eq!(body.inertia, snapshot.inertia);
    assert_eq!(body.local_com, snapshot.local_com);
}

#[test]
fn body_kinds_answer_their_predicates() {
    assert!(RigidBody::Dynamic.is_dynamic());
    assert!(RigidBody::Static.is_static());
    assert!(RigidBody::Kinematic.is_kinematic());
    assert!(!RigidBody::Static.is_dynamic());
    assert_eq!(RigidBody::default(), RigidBody::Dynamic);
}

#[test]
fn zero_substeps_are_rejected() {
    assert_eq!(NumSubsteps::new(0), Err(ConfigError::ZeroCount));
    assert_eq!(NumSubsteps::new(8), Ok(NumSubsteps(8)));
    assert_eq!(NumPosIters::new(0), Err(ConfigError::ZeroCount));
    assert_eq!(NumSubsteps::default().0, 8);
    assert_eq!(NumPosIters::default().0, 4);
}

#[test]
fn friction_builder_sets_both_coefficients() {
    let f = Friction::new(fp(0.25));
    assert_eq!(f.dynamic_coefficient, fp(0.25));
    assert_eq!(f.static_coefficient, fp(0.25));
    let z = Friction::zero();
    assert_eq!(z.dynamic_coefficient, 0);
}
