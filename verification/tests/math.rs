//! Fixed-point arithmetic and trigonometry.

use xpbd::fp::{fp_abs, fp_add, fp_div, fp_half, fp_mul, fp_neg, fp_sqrt, fp_sub, FP_ONE};
use xpbd::trig::{asin_fp, sin_cos, wrap_angle, HALF_PI_FP, PI_FP, TWO_PI_FP};

fn fp(x: f64) -> i64 {
    (x * FP_ONE as f64).round() as i64
}

fn to_f(x: i64) -> f64 {
    x as f64 / FP_ONE as f64
}

#[test]
fn fixed_point_products_are_exact() {
    assert_eq!(fp_mul(3 * FP_ONE, 2 * FP_ONE), 6 * FP_ONE);
    assert_eq!(fp_mul(-3 * FP_ONE, 2 * FP_ONE), -6 * FP_ONE);
    // Truncation is toward zero on both sides.
    assert_eq!(fp_mul(3, 3), 0);
    assert_eq!(fp_mul(-3, 3), 0);
    assert_eq!(fp_add(5, 7), 12);
    assert_eq!(fp_sub(5, 7), -2);
    assert_eq!(fp_neg(42), -42);
    assert_eq!(fp_abs(-42), 42);
    assert_eq!(fp_half(-5), -2);
}

#[test]
fn fixed_point_addition_saturates() {
    assert_eq!(fp_add(i64::MAX, 1), i64::MAX);
    assert_eq!(fp_sub(i64::MIN, 1), i64::MIN);
}

#[test]
fn division_by_zero_is_zero() {
    assert_eq!(fp_div(FP_ONE, 0), 0);
    assert_eq!(fp_div(7 * FP_ONE, 2 * FP_ONE), fp(3.5));
}

#[test]
fn square_root_is_exact_on_squares() {
    assert_eq!(fp_sqrt(4 * FP_ONE), 2 * FP_ONE);
    assert_eq!(fp_sqrt(9 * FP_ONE), 3 * FP_ONE);
    assert_eq!(fp_sqrt(0), 0);
    assert_eq!(fp_sqrt(-5), 0);
    // Rounded down at the fixed-point resolution.
    let r = fp_sqrt(2 * FP_ONE);
    assert!((to_f(r) - 2.0f64.sqrt()).abs() < 2.0 / FP_ONE as f64);
}

#[test]
fn wrap_angle_keeps_the_principal_range() {
    assert_eq!(wrap_angle(0), 0);
    assert_eq!(wrap_angle(PI_FP), PI_FP);
    assert_eq!(wrap_angle(PI_FP + 10), PI_FP + 10 - TWO_PI_FP);
    assert_eq!(wrap_angle(-PI_FP - 10), -PI_FP - 10 + TWO_PI_FP);
}

#[test]
fn sine_and_cosine_match_the_reference() {
    let mut a = -6.2f64;
    while a < 6.2 {
        let (s, c) = sin_cos(fp(a));
        assert!((to_f(s) - a.sin()).abs() < 3e-3, "sin({}) = {}", a, to_f(s));
        assert!((to_f(c) - a.cos()).abs() < 3e-3, "cos({}) = {}", a, to_f(c));
        a += 0.37;
    }
    let (s0, c0) = sin_cos(0);
    assert_eq!(s0, 0);
    assert_eq!(c0, FP_ONE);
}

#[test]
fn arcsine_matches_the_reference() {
    let mut x = -1.0f64;
    while x <= 1.0 {
        let r = asin_fp(fp(x));
        assert!((to_f(r) - x.asin()).abs() < 8e-3, "asin({}) = {}", x, to_f(r));
        assert!(-HALF_PI_FP <= r && r <= HALF_PI_FP);
        x += 0.125;
    }
    // The bisection resolves angles to the fixed-point resolution.
    assert!(asin_fp(0).abs() <= 2);
    assert!(asin_fp(0) >= 0);
}
