//! The distance and angle limiting primitives, and joint configuration.

use xpbd::fp::FP_ONE;
use xpbd::joints::{
    limit_angle, limit_distance, limit_distance_along_axis, swing_angle, Joint, JointKind,
};
use xpbd::resources::ConfigError;
use xpbd::trig::{HALF_PI_FP, PI_FP};
use xpbd::vec3::Vec3;

fn fp(x: f64) -> i64 {
    (x * FP_ONE as f64).round() as i64
}

fn to_f(x: i64) -> f64 {
    x as f64 / FP_ONE as f64
}

fn rotated_in_plane(angle: f64) -> Vec3 {
    Vec3::new(fp(angle.cos()), fp(angle.sin()), 0)
}

#[test]
fn limit_distance_pushes_back_to_the_violated_bound() {
    let zero = Vec3::new(0, 0, 0);
    let pos2 = Vec3::new(2 * FP_ONE, 0, 0);
    // Two units apart, at most one allowed: the correction is exactly one
    // unit back along the separation.
    let corr = limit_distance(0, FP_ONE, &zero, &zero, &zero, &pos2);
    assert_eq!(corr, Vec3::new(-FP_ONE, 0, 0));
    // Within range: no correction.
    let corr2 = limit_distance(0, 3 * FP_ONE, &zero, &zero, &zero, &pos2);
    assert_eq!(corr2, Vec3::new(0, 0, 0));
    // Coincident anchors are degenerate: no correction, no fault.
    let corr3 = limit_distance(FP_ONE, 2 * FP_ONE, &zero, &zero, &zero, &zero);
    assert_eq!(corr3, Vec3::new(0, 0, 0));
}

#[test]
fn distance_range_is_idempotent_at_the_solved_state() {
    // A slider held at exactly min == max == d: the measured projection
    // equals d, and the constraint returns the zero correction - the
    // solved state is a fixed point.
    let d = fp(1.5);
    let axis = Vec3::new(FP_ONE, 0, 0);
    let zero = Vec3::new(0, 0, 0);
    let pos2 = Vec3::new(d, 0, 0);
    let corr = limit_distance_along_axis(d, d, &axis, &zero, &zero, &zero, &pos2);
    assert_eq!(corr, Vec3::new(0, 0, 0));
    // Out of range along the axis: pushed back by the exact violation.
    let corr2 = limit_distance_along_axis(0, FP_ONE, &axis, &zero, &zero, &zero, &pos2);
    assert_eq!(corr2, Vec3::new(FP_ONE - d, 0, 0));
}

#[test]
fn swing_angle_sweeps_continuously_through_the_seam() {
    // n1 fixed along x, n2 swept in the xy-plane about the z hinge axis:
    // the measured swing angle must follow the sweep without any jump
    // (other than the single wrap at the seam itself).
    let n = Vec3::new(0, 0, FP_ONE);
    let n1 = Vec3::new(FP_ONE, 0, 0);
    let delta = 0.05f64;
    let mut prev: Option<f64> = None;
    let mut a = -std::f64::consts::PI + delta;
    while a < std::f64::consts::PI - delta {
        let n2 = rotated_in_plane(a);
        let phi = swing_angle(&n, &n1, &n2);
        let phi_f = to_f(phi);
        assert!((phi_f - a).abs() < 0.02, "swing at {} was {}", a, phi_f);
        if let Some(p) = prev {
            assert!((phi_f - p).abs() < 0.1, "jump from {} to {}", p, phi_f);
        }
        prev = Some(phi_f);
        a += 0.05;
    }
}

#[test]
fn limit_angle_is_none_within_the_limits() {
    let n = Vec3::new(0, 0, FP_ONE);
    let n1 = Vec3::new(FP_ONE, 0, 0);
    let n2 = rotated_in_plane(0.3);
    assert!(limit_angle(&n, &n1, &n2, -HALF_PI_FP, HALF_PI_FP, PI_FP).is_none());
    // Beyond the upper bound: a correction comes back, capped in length.
    let n3 = rotated_in_plane(1.9);
    let corr = limit_angle(&n, &n1, &n2, 0, fp(0.1), fp(0.05)).unwrap();
    let mag = to_f(corr.length());
    assert!(mag > 0.0 && mag <= 0.0501, "magnitude {}", mag);
    assert!(limit_angle(&n, &n1, &n3, -HALF_PI_FP, HALF_PI_FP, PI_FP).is_some());
}

#[test]
fn negative_compliance_is_rejected() {
    let r = Joint::new_with_compliance(0, 1, -1, JointKind::Spherical);
    assert_eq!(r.unwrap_err(), ConfigError::NegativeCompliance);
    let j = Joint::new_with_compliance(0, 1, 0, JointKind::Fixed).unwrap();
    assert_eq!(j.entities(), (0, 1));
    assert_eq!(j.compliance, 0);
    let j2 = j
        .with_local_anchor_1(Vec3::new(FP_ONE, 0, 0))
        .with_local_anchor_2(Vec3::new(-FP_ONE, 0, 0))
        .with_lin_vel_damping(5)
        .with_ang_vel_damping(7);
    assert_eq!(j2.local_anchor1, Vec3::new(FP_ONE, 0, 0));
    assert_eq!(j2.damping_lin(), 5);
    assert_eq!(j2.damping_ang(), 7);
}
