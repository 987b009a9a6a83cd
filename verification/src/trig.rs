//! Fixed-point angle helpers: wrapping, sine/cosine, arcsine.
//!
//! Angles are fixed-point radians. Sine and cosine are evaluated by a
//! truncated series on a half-angle, after reduction to a single period;
//! the arcsine is found by bisection against that sine. Each function's
//! result is pinned exactly by a spec-level mirror of the same arithmetic,
//! so callers reason about one well-defined value.

use vstd::prelude::*;
use vstd::arithmetic::div_mod::{lemma_div_nonincreasing, lemma_div_pos_is_pos};
use crate::fp::{
    fp_add, fp_div, fp_mul, fp_neg, fp_sub, sadd, sat64, sdiv, smul, sneg, ssub, tdiv, FP_ONE,
};

verus! {

/// The half turn, in fixed-point radians.
pub const PI_FP: i64 = 3294199;

/// The full turn, in fixed-point radians.
pub const TWO_PI_FP: i64 = 2 * PI_FP;

/// The quarter turn, in fixed-point radians.
pub const HALF_PI_FP: i64 = 1647099;

/// Negative one, in fixed point.
pub const NEG_FP_ONE: i64 = -FP_ONE;

pub const DIV2: i64 = 2 * FP_ONE;
pub const DIV6: i64 = 6 * FP_ONE;
pub const DIV24: i64 = 24 * FP_ONE;
pub const DIV120: i64 = 120 * FP_ONE;
pub const DIV720: i64 = 720 * FP_ONE;
pub const DIV5040: i64 = 5040 * FP_ONE;

/// One wrapping step: brings any angle within one turn of the principal
/// range back into `[-PI_FP, PI_FP]`.
pub open spec fn wrap_angle_s(a: i64) -> i64 {
    if a > PI_FP {
        ssub(a, TWO_PI_FP)
    } else if a < -PI_FP {
        sadd(a, TWO_PI_FP)
    } else {
        a
    }
}

/// Brings an angle within one turn of the principal range back into
/// `[-PI_FP, PI_FP]`, shifting by at most one full turn.
pub fn wrap_angle(a: i64) -> (r: i64)
    ensures
        r == wrap_angle_s(a),
{
    if a > PI_FP {
        fp_sub(a, TWO_PI_FP)
    } else if a < 0 - PI_FP {
        fp_add(a, TWO_PI_FP)
    } else {
        a
    }
}

/// Wrapping keeps the angle's value modulo one turn and lands in the
/// principal range for any input within one turn of it. This is what makes
/// the swing-angle computation continuous across the `+/-PI_FP` seam: an
/// angle just past one end reappears just inside the other end, never
/// anywhere else.
pub proof fn lemma_wrap_angle(a: i64)
    ensures
        wrap_angle_s(a) == a || wrap_angle_s(a) == a - TWO_PI_FP || wrap_angle_s(a) == a
            + TWO_PI_FP,
        -TWO_PI_FP <= a <= TWO_PI_FP ==> -PI_FP <= wrap_angle_s(a) <= PI_FP,
{
}

/// Clamp to the fixed-point interval `[-FP_ONE, FP_ONE]`.
pub open spec fn clamp_unit_s(a: i64) -> i64 {
    if a > FP_ONE {
        FP_ONE
    } else if a < NEG_FP_ONE {
        NEG_FP_ONE
    } else {
        a
    }
}

/// Clamp to the fixed-point interval `[-FP_ONE, FP_ONE]`.
pub fn clamp_unit(a: i64) -> (r: i64)
    ensures
        r == clamp_unit_s(a),
{
    if a > FP_ONE {
        FP_ONE
    } else if a < NEG_FP_ONE {
        NEG_FP_ONE
    } else {
        a
    }
}

/// Truncated sine series on a small half-angle `h`:
/// `h - h^3/6 + h^5/120 - h^7/5040`.
pub open spec fn sin_taylor_s(h: i64) -> i64 {
    let h2 = smul(h, h);
    let h3 = smul(h2, h);
    let h5 = smul(h3, h2);
    let h7 = smul(h5, h2);
    ssub(sadd(ssub(h, sdiv(h3, DIV6)), sdiv(h5, DIV120)), sdiv(h7, DIV5040))
}

/// Truncated cosine series on a small half-angle `h`:
/// `1 - h^2/2 + h^4/24 - h^6/720`.
pub open spec fn cos_taylor_s(h: i64) -> i64 {
    let h2 = smul(h, h);
    let h4 = smul(h2, h2);
    let h6 = smul(h4, h2);
    sadd(ssub(sadd(ssub(FP_ONE, sdiv(h2, DIV2)), sdiv(h4, DIV24)), sdiv(
        h6,
        DIV720,
    )), 0)
}

fn sin_taylor(h: i64) -> (r: i64)
    ensures
        r == sin_taylor_s(h),
{
    let h2 = fp_mul(h, h);
    let h3 = fp_mul(h2, h);
    let h5 = fp_mul(h3, h2);
    let h7 = fp_mul(h5, h2);
    fp_sub(fp_add(fp_sub(h, fp_div(h3, DIV6)), fp_div(h5, DIV120)), fp_div(
        h7,
        DIV5040,
    ))
}

fn cos_taylor(h: i64) -> (r: i64)
    ensures
        r == cos_taylor_s(h),
{
    let h2 = fp_mul(h, h);
    let h4 = fp_mul(h2, h2);
    let h6 = fp_mul(h4, h2);
    fp_add(fp_sub(fp_add(fp_sub(FP_ONE, fp_div(h2, DIV2)), fp_div(h4, DIV24)), fp_div(
        h6,
        DIV720,
    )), 0)
}

/// Sine and cosine on the first quadrant `[0, HALF_PI_FP]`, by the
/// half-angle identities `sin u = 2 s c`, `cos u = 1 - 2 s^2` with
/// `s = sin(u/2)`, `c = cos(u/2)`.
pub open spec fn sincos_quadrant_s(u: i64) -> (i64, i64) {
    let h = sat64(tdiv(u as int, 2)) as i64;
    let s = sin_taylor_s(h);
    let c = cos_taylor_s(h);
    let sc = smul(s, c);
    let ss = smul(s, s);
    (clamp_unit_s(sadd(sc, sc)), clamp_unit_s(ssub(FP_ONE, sadd(ss, ss))))
}

fn sincos_quadrant(u: i64) -> (r: (i64, i64))
    requires
        0 <= u,
    ensures
        r == sincos_quadrant_s(u),
{
    let h: i64 = ((u as u64) / 2) as i64;
    let s = sin_taylor(h);
    let c = cos_taylor(h);
    let sc = fp_mul(s, c);
    let ss = fp_mul(s, s);
    (clamp_unit(fp_add(sc, sc)), clamp_unit(fp_sub(FP_ONE, fp_add(ss, ss))))
}

/// Sine and cosine of an angle within one turn of the principal range:
/// the angle is wrapped, folded onto the first quadrant, and the signs
/// restored. Both results are clamped to `[-FP_ONE, FP_ONE]`.
pub open spec fn sincos_s(x: i64) -> (i64, i64) {
    let w = wrap_angle_s(x);
    let u = if w >= 0 {
        w
    } else {
        sneg(w)
    };
    let folded = if u > HALF_PI_FP {
        ssub(PI_FP, u)
    } else {
        u
    };
    let qc = sincos_quadrant_s(folded);
    let sin_u = qc.0;
    let cos_u = if u > HALF_PI_FP {
        sneg(qc.1)
    } else {
        qc.1
    };
    if w >= 0 {
        (sin_u, cos_u)
    } else {
        (sneg(sin_u), cos_u)
    }
}

/// Sine of `x`.
pub open spec fn sin_s(x: i64) -> i64 {
    sincos_s(x).0
}

/// Cosine of `x`.
pub open spec fn cos_s(x: i64) -> i64 {
    sincos_s(x).1
}

/// Sine and cosine of an angle within one turn of the principal range.
pub fn sin_cos(x: i64) -> (r: (i64, i64))
    requires
        -TWO_PI_FP <= x <= TWO_PI_FP,
    ensures
        r == sincos_s(x),
        -FP_ONE <= r.0 <= FP_ONE,
        -FP_ONE <= r.1 <= FP_ONE,
{
    let w = wrap_angle(x);
    let u: i64 = if w >= 0 {
        w
    } else {
        fp_neg(w)
    };
    proof {
        lemma_wrap_angle(x);
    }
    let folded: i64 = if u > HALF_PI_FP {
        fp_sub(PI_FP, u)
    } else {
        u
    };
    let qc = sincos_quadrant(folded);
    let cos_u: i64 = if u > HALF_PI_FP {
        fp_neg(qc.1)
    } else {
        qc.1
    };
    if w >= 0 {
        (qc.0, cos_u)
    } else {
        (fp_neg(qc.0), cos_u)
    }
}

/// Bisection search for the arcsine on the first quadrant: after `k`
/// halvings of `[lo, hi]`, the lower end is returned.
pub open spec fn asin_search_s(x: i64, lo: i64, hi: i64, k: nat) -> i64
    decreases k,
{
    if k == 0 {
        lo
    } else {
        let mid = sat64(lo + tdiv((hi - lo) as int, 2)) as i64;
        if sin_s(mid) <= x {
            asin_search_s(x, mid, hi, (k - 1) as nat)
        } else {
            asin_search_s(x, lo, mid, (k - 1) as nat)
        }
    }
}

/// The search never leaves the bracket it was started on.
pub proof fn lemma_asin_search_range(x: i64, lo: i64, hi: i64, k: nat)
    requires
        0 <= lo <= hi <= HALF_PI_FP,
    ensures
        lo <= asin_search_s(x, lo, hi, k) <= hi,
    decreases k,
{
    if k > 0 {
        let half = tdiv((hi - lo) as int, 2);
        lemma_div_nonincreasing((hi - lo) as int, 2);
        lemma_div_pos_is_pos((hi - lo) as int, 2);
        let mid = sat64(lo + half) as i64;
        if sin_s(mid) <= x {
            lemma_asin_search_range(x, mid, hi, (k - 1) as nat);
        } else {
            lemma_asin_search_range(x, lo, mid, (k - 1) as nat);
        }
    }
}

/// The fixed-point arcsine: a bisection of the first quadrant against
/// [`sin_s`], with the sign of the argument restored.
pub open spec fn asin_s(x: i64) -> i64 {
    if x >= 0 {
        asin_search_s(x, 0, HALF_PI_FP, 24)
    } else {
        sneg(asin_search_s(sneg(x), 0, HALF_PI_FP, 24))
    }
}

/// The arcsine lands in the principal quarter-turn range.
pub proof fn lemma_asin_range(x: i64)
    ensures
        -HALF_PI_FP <= asin_s(x) <= HALF_PI_FP,
{
    lemma_asin_search_range(x, 0, HALF_PI_FP, 24);
    if x < 0 {
        lemma_asin_search_range(sneg(x), 0, HALF_PI_FP, 24);
    }
}

/// The fixed-point arcsine of a value in `[-FP_ONE, FP_ONE]`; the result
/// lies in `[-HALF_PI_FP, HALF_PI_FP]` and has the argument's sign.
pub fn asin_fp(x: i64) -> (r: i64)
    requires
        NEG_FP_ONE <= x <= FP_ONE,
    ensures
        r == asin_s(x),
        -HALF_PI_FP <= r <= HALF_PI_FP,
        x >= 0 ==> r >= 0,
        x < 0 ==> r <= 0,
{
    let ax: i64 = if x >= 0 {
        x
    } else {
        fp_neg(x)
    };
    let mut lo: i64 = 0;
    let mut hi: i64 = HALF_PI_FP;
    let mut k: u64 = 24;
    while k > 0
        invariant
            0 <= lo <= hi <= HALF_PI_FP,
            asin_search_s(ax, lo, hi, k as nat) == asin_search_s(ax, 0, HALF_PI_FP, 24),
        decreases k,
    {
        proof {
            lemma_div_nonincreasing((hi - lo) as int, 2);
            lemma_div_pos_is_pos((hi - lo) as int, 2);
        }
        let mid: i64 = lo + (((hi - lo) as u64) / 2) as i64;
        let s = sin_cos(mid).0;
        if s <= ax {
            lo = mid;
        } else {
            hi = mid;
        }
        k = k - 1;
    }
    proof {
        lemma_asin_search_range(ax, 0, HALF_PI_FP, 24);
    }
    if x >= 0 {
        lo
    } else {
        fp_neg(lo)
    }
}

} // verus!
