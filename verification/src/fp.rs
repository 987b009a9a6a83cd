//! Fixed-point scalar arithmetic.
//!
//! Every physical quantity in this crate (lengths, velocities, masses,
//! quaternion components, seconds) is an `i64` holding the quantity scaled
//! by [`FP_ONE`]. Products and quotients are computed in 128-bit
//! intermediates, truncated toward zero, and saturated to the `i64` range,
//! so every operation is total and its result is pinned exactly by a spec
//! function.

use vstd::prelude::*;
use vstd::arithmetic::div_mod::{lemma_div_nonincreasing, lemma_div_pos_is_pos};

verus! {

/// The fixed-point unit: an `i64` value `v` stands for the real number
/// `v / FP_ONE`.
pub const FP_ONE: i64 = 1048576;

/// Absolute value of a mathematical integer.
pub open spec fn iabs(a: int) -> int {
    if a >= 0 {
        a
    } else {
        -a
    }
}

/// Saturation of a mathematical integer to the `i64` range.
pub open spec fn sat64(x: int) -> int {
    if x > i64::MAX as int {
        i64::MAX as int
    } else if x < i64::MIN as int {
        i64::MIN as int
    } else {
        x
    }
}

/// Division truncating toward zero, with quotient 0 when the divisor is 0.
/// (The mathematical `/` below is Euclidean division of non-negative values,
/// where the two conventions agree.)
pub open spec fn tdiv(a: int, b: int) -> int {
    if b == 0 {
        0
    } else if a == 0 {
        0
    } else if a > 0 && b > 0 {
        a / b
    } else if a < 0 && b < 0 {
        (a * -1) / (b * -1)
    } else if a < 0 {
        ((a * -1) / b) * -1
    } else {
        (a / (b * -1)) * -1
    }
}

/// A truncating quotient never exceeds the dividend in magnitude.
pub proof fn lemma_tdiv_bounds(a: int, b: int)
    ensures
        -iabs(a) <= tdiv(a, b) <= iabs(a),
{
    if b == 0 || a == 0 {
    } else if a > 0 && b > 0 {
        lemma_div_pos_is_pos(a, b);
        lemma_div_nonincreasing(a, b);
    } else if a < 0 && b < 0 {
        lemma_div_pos_is_pos(a * -1, b * -1);
        lemma_div_nonincreasing(a * -1, b * -1);
    } else if a < 0 {
        lemma_div_pos_is_pos(a * -1, b);
        lemma_div_nonincreasing(a * -1, b);
    } else {
        lemma_div_pos_is_pos(a, b * -1);
        lemma_div_nonincreasing(a, b * -1);
    }
}

/// Saturating fixed-point addition.
pub open spec fn sadd(a: i64, b: i64) -> i64 {
    sat64(a + b) as i64
}

/// Saturating fixed-point subtraction.
pub open spec fn ssub(a: i64, b: i64) -> i64 {
    sat64(a - b) as i64
}

/// Saturating fixed-point multiplication: the exact product rescaled by
/// `FP_ONE` with truncation toward zero.
pub open spec fn smul(a: i64, b: i64) -> i64 {
    sat64(tdiv(a * b, FP_ONE as int)) as i64
}

/// Saturating fixed-point division: the exact quotient rescaled by `FP_ONE`
/// with truncation toward zero; division by zero yields zero (this is also
/// how singular masses and inertias are inverted: the pseudo-inverse of
/// zero is zero).
pub open spec fn sdiv(a: i64, b: i64) -> i64 {
    sat64(tdiv(a * FP_ONE as int, b as int)) as i64
}

/// Fixed-point negation (`-i64::MIN` saturates to `i64::MAX`).
pub open spec fn sneg(a: i64) -> i64 {
    sat64(-(a as int)) as i64
}

/// Saturating absolute value.
pub open spec fn sabs(a: i64) -> i64 {
    sat64(iabs(a as int)) as i64
}

/// Saturating absolute value.
pub fn fp_abs(a: i64) -> (r: i64)
    ensures
        r == sabs(a),
{
    if a >= 0 {
        a
    } else {
        clamp128(-(a as i128))
    }
}

/// A product of non-negative factors is non-negative.
pub proof fn lemma_smul_nonneg(a: i64, b: i64)
    requires
        0 <= a,
        0 <= b,
    ensures
        0 <= smul(a, b),
{
    if a > 0 && b > 0 {
        assert(0 < a * b) by (nonlinear_arith)
            requires
                0 < a as int,
                0 < b as int,
        ;
        lemma_div_pos_is_pos(a * b, FP_ONE as int);
    } else {
        assert(a * b == 0) by (nonlinear_arith)
            requires
                a == 0 || b == 0,
        ;
    }
}

/// Halving with truncation toward zero.
pub open spec fn shalf(a: i64) -> i64 {
    sat64(tdiv(a as int, 2)) as i64
}

/// Halving with truncation toward zero.
pub fn fp_half(a: i64) -> (r: i64)
    ensures
        r == shalf(a),
{
    match a.checked_div(2) {
        Some(q) => q,
        None => {
            proof {
                lemma_tdiv_bounds(a as int, 2);
            }
            assert(false);
            0
        },
    }
}

/// `r` is the integer square root of `n` rounded down.
pub open spec fn is_isqrt(n: int, r: int) -> bool {
    0 <= r && r * r <= n && n < (r + 1) * (r + 1)
}

/// The integer square root of `n`, rounded down (meaningful for `n >= 0`;
/// see [`lemma_sqrt_floor`]).
pub open spec fn sqrt_floor(n: int) -> int {
    choose|r: int| is_isqrt(n, r)
}

proof fn lemma_isqrt_exists(n: int)
    requires
        0 <= n,
    ensures
        exists|r: int| is_isqrt(n, r),
    decreases n,
{
    if n == 0 {
        assert(is_isqrt(0, 0));
    } else {
        let m = n - 1;
        lemma_isqrt_exists(m);
        let r = choose|r: int| is_isqrt(m, r);
        if n < (r + 1) * (r + 1) {
            assert(is_isqrt(n, r));
        } else {
            assert(is_isqrt(n, r + 1)) by (nonlinear_arith)
                requires
                    0 <= r,
                    r * r <= n - 1,
                    n - 1 < (r + 1) * (r + 1),
                    n >= (r + 1) * (r + 1),
            ;
        }
    }
}

/// The integer square root is unique.
pub proof fn lemma_isqrt_unique(n: int, r1: int, r2: int)
    requires
        is_isqrt(n, r1),
        is_isqrt(n, r2),
    ensures
        r1 == r2,
{
    assert(r1 == r2) by (nonlinear_arith)
        requires
            0 <= r1,
            0 <= r2,
            r1 * r1 <= n,
            n < (r1 + 1) * (r1 + 1),
            r2 * r2 <= n,
            n < (r2 + 1) * (r2 + 1),
    ;
}

/// For `n >= 0`, `sqrt_floor(n)` is the integer square root of `n`.
pub proof fn lemma_sqrt_floor(n: int)
    requires
        0 <= n,
    ensures
        is_isqrt(n, sqrt_floor(n)),
{
    lemma_isqrt_exists(n);
}

/// Integer square root of a 128-bit value, by bisection.
fn isqrt_u128(n: u128) -> (r: u128)
    ensures
        is_isqrt(n as int, r as int),
{
    if n == 0 {
        return 0;
    }
    let mut lo: u128 = 0;
    let mut hi: u128 = 0x10000000000000000;
    proof {
        assert((0x10000000000000000 as int) * (0x10000000000000000 as int) > u128::MAX as int)
            by (nonlinear_arith);
    }
    while lo + 1 < hi
        invariant
            lo < hi,
            hi <= 0x10000000000000000,
            (lo as int) * (lo as int) <= n as int,
            (n as int) < (hi as int) * (hi as int),
        decreases hi - lo,
    {
        let mid: u128 = lo + (hi - lo) / 2;
        proof {
            assert((mid as int) * (mid as int) <= u128::MAX as int) by (nonlinear_arith)
                requires
                    mid as int <= 0xFFFFFFFFFFFFFFFF as int,
                    0 <= mid as int,
            ;
        }
        let p: u128 = mid * mid;
        if p <= n {
            lo = mid;
        } else {
            hi = mid;
        }
    }
    lo
}

/// A number at least `b * b` has an integer square root of at least `b`.
pub proof fn lemma_sqrt_floor_at_least(n: int, b: int)
    requires
        0 <= b,
        b * b <= n,
    ensures
        b <= sqrt_floor(n),
{
    lemma_sqrt_floor(n);
    let r = sqrt_floor(n);
    assert(b <= r) by (nonlinear_arith)
        requires
            0 <= b,
            b * b <= n,
            0 <= r,
            n < (r + 1) * (r + 1),
    ;
}

/// The zero vector has length zero.
pub proof fn lemma_shypot3_zero()
    ensures
        shypot3(0, 0, 0) == 0,
{
    assert(is_isqrt(0, 0));
    lemma_sqrt_floor(0);
    lemma_isqrt_unique(0, 0, sqrt_floor(0));
}

/// The length of a three-component fixed-point vector: the components are
/// squared and summed exactly (no intermediate rescaling, so corrections
/// far below one unit of length still register), rooted, and saturated.
pub open spec fn shypot3(x: i64, y: i64, z: i64) -> i64 {
    sat64(sqrt_floor(x * x + y * y + z * z)) as i64
}

/// The exact length of a three-component fixed-point vector.
pub fn fp_hypot3(x: i64, y: i64, z: i64) -> (r: i64)
    ensures
        r == shypot3(x, y, z),
{
    proof {
        assert(0 <= (x as int) * (x as int) <= 0x40000000000000000000000000000000int
            && 0 <= (y as int) * (y as int) <= 0x40000000000000000000000000000000int
            && 0 <= (z as int) * (z as int) <= 0x40000000000000000000000000000000int)
            by (nonlinear_arith)
            requires
                i64::MIN as int <= x as int <= i64::MAX as int,
                i64::MIN as int <= y as int <= i64::MAX as int,
                i64::MIN as int <= z as int <= i64::MAX as int,
        ;
    }
    let xx: u128 = ((x as i128) * (x as i128)) as u128;
    let yy: u128 = ((y as i128) * (y as i128)) as u128;
    let zz: u128 = ((z as i128) * (z as i128)) as u128;
    let s: u128 = xx + yy + zz;
    let rt = isqrt_u128(s);
    proof {
        lemma_sqrt_floor(s as int);
        lemma_isqrt_unique(s as int, rt as int, sqrt_floor(s as int));
    }
    if rt > i64::MAX as u128 {
        i64::MAX
    } else {
        rt as i64
    }
}

/// The length of a four-component fixed-point quaternion, squared and
/// summed exactly as in [`shypot3`].
pub open spec fn shypot4(x: i64, y: i64, z: i64, w: i64) -> i64 {
    sat64(sqrt_floor(x * x + y * y + z * z + w * w)) as i64
}

/// The exact length of a four-component fixed-point quaternion.
pub fn fp_hypot4(x: i64, y: i64, z: i64, w: i64) -> (r: i64)
    ensures
        r == shypot4(x, y, z, w),
{
    proof {
        assert(0 <= (x as int) * (x as int) <= 0x40000000000000000000000000000000int
            && 0 <= (y as int) * (y as int) <= 0x40000000000000000000000000000000int
            && 0 <= (z as int) * (z as int) <= 0x40000000000000000000000000000000int
            && 0 <= (w as int) * (w as int) <= 0x40000000000000000000000000000000int)
            by (nonlinear_arith)
            requires
                i64::MIN as int <= x as int <= i64::MAX as int,
                i64::MIN as int <= y as int <= i64::MAX as int,
                i64::MIN as int <= z as int <= i64::MAX as int,
                i64::MIN as int <= w as int <= i64::MAX as int,
        ;
    }
    let xx: u128 = ((x as i128) * (x as i128)) as u128;
    let yy: u128 = ((y as i128) * (y as i128)) as u128;
    let zz: u128 = ((z as i128) * (z as i128)) as u128;
    let ww: u128 = ((w as i128) * (w as i128)) as u128;
    let s3: u128 = xx + yy + zz;
    match s3.checked_add(ww) {
        Some(s) => {
            let rt = isqrt_u128(s);
            proof {
                lemma_sqrt_floor(s as int);
                lemma_isqrt_unique(s as int, rt as int, sqrt_floor(s as int));
            }
            if rt > i64::MAX as u128 {
                i64::MAX
            } else {
                rt as i64
            }
        },
        None => {
            // The exact sum exceeds the 128-bit range, so its root
            // already exceeds the saturation bound.
            proof {
                lemma_sqrt_floor_at_least(
                    (x * x + y * y + z * z + w * w) as int,
                    0x8000000000000000int,
                );
            }
            i64::MAX
        },
    }
}

/// The fixed-point square root: `ssqrt(a) / FP_ONE` is the square root of
/// `a / FP_ONE`, rounded down at the fixed-point resolution. Non-positive
/// inputs (degenerate geometry) yield zero.
pub open spec fn ssqrt(a: i64) -> i64 {
    if a <= 0 {
        0
    } else {
        sqrt_floor(a * FP_ONE as int) as i64
    }
}

/// Fixed-point square root.
pub fn fp_sqrt(a: i64) -> (r: i64)
    ensures
        r == ssqrt(a),
{
    if a <= 0 {
        return 0;
    }
    proof {
        assert(FP_ONE as int == 0x100000);
        assert((a as int) * 0x100000 <= 9671406556917033397649408int) by (nonlinear_arith)
            requires
                0 < a as int <= i64::MAX as int,
        ;
    }
    let n: u128 = (a as u128) * (FP_ONE as u128);
    let s: u128 = isqrt_u128(n);
    proof {
        lemma_sqrt_floor(n as int);
        lemma_isqrt_unique(n as int, s as int, sqrt_floor(n as int));
        assert(s as int <= 0x3FFFFFFFFFFF as int) by (nonlinear_arith)
            requires
                0 <= s as int,
                (s as int) * (s as int) <= n as int,
                n as int <= 9671406556917033397649408int,
        ;
    }
    s as i64
}

/// Clamps a 128-bit intermediate into the `i64` range.
fn clamp128(q: i128) -> (r: i64)
    ensures
        r as int == sat64(q as int),
{
    if q > i64::MAX as i128 {
        i64::MAX
    } else if q < i64::MIN as i128 {
        i64::MIN
    } else {
        q as i64
    }
}

/// Saturating fixed-point addition.
pub fn fp_add(a: i64, b: i64) -> (r: i64)
    ensures
        r == sadd(a, b),
{
    clamp128(a as i128 + b as i128)
}

/// Saturating fixed-point subtraction.
pub fn fp_sub(a: i64, b: i64) -> (r: i64)
    ensures
        r == ssub(a, b),
{
    clamp128(a as i128 - b as i128)
}

/// Fixed-point negation.
pub fn fp_neg(a: i64) -> (r: i64)
    ensures
        r == sneg(a),
{
    clamp128(-(a as i128))
}

/// Saturating fixed-point multiplication.
pub fn fp_mul(a: i64, b: i64) -> (r: i64)
    ensures
        r == smul(a, b),
{
    proof {
        assert(i128::MIN as int <= (a as int) * (b as int) <= i128::MAX as int)
            by (nonlinear_arith)
            requires
                i64::MIN as int <= a as int <= i64::MAX as int,
                i64::MIN as int <= b as int <= i64::MAX as int,
        ;
    }
    let p: i128 = (a as i128) * (b as i128);
    let q: i128 = match p.checked_div(FP_ONE as i128) {
        Some(q) => q,
        None => {
            proof {
                lemma_tdiv_bounds(p as int, FP_ONE as int);
            }
            assert(false);
            0
        },
    };
    proof {
        lemma_tdiv_bounds(p as int, FP_ONE as int);
        assert(q as int == tdiv(a * b, FP_ONE as int));
    }
    clamp128(q)
}

/// Saturating fixed-point division; division by zero yields zero.
pub fn fp_div(a: i64, b: i64) -> (r: i64)
    ensures
        r == sdiv(a, b),
{
    proof {
        assert(-0x8000000000000000i128 * 0x100000i128 <= (a as int) * (FP_ONE as int)
            <= 0x8000000000000000i128 * 0x100000i128) by (nonlinear_arith)
            requires
                i64::MIN as int <= a as int <= i64::MAX as int,
                FP_ONE as int == 0x100000,
        ;
    }
    let n: i128 = (a as i128) * (FP_ONE as i128);
    match n.checked_div(b as i128) {
        Some(q) => {
            proof {
                assert(q as int == tdiv(a * FP_ONE as int, b as int));
            }
            clamp128(q)
        },
        None => {
            proof {
                if b != 0 {
                    lemma_tdiv_bounds(n as int, b as int);
                    assert(iabs(n as int) < i128::MAX as int);
                    assert((i128::MIN as int) < -iabs(n as int));
                    assert(false);
                }
            }
            0
        },
    }
}

} // verus!
