//! Fixed-point trigonometry on angles in millidegrees.
//!
//! `sin_mdeg` and `cos_mdeg` return values scaled by 1000 and are exact at
//! the quarter-turn points, which is what the integrator and the weapon
//! subsystem rely on. `atan2_mdeg` computes a bearing in millidegrees from
//! a vector, precise to well under a hundredth of a degree; the intercept
//! solver is specified directly against these functions' spec mirrors.

use vstd::prelude::*;
use vstd::arithmetic::div_mod::*;

verus! {

/// Sine on a half turn, `0 <= a <= 180000` millidegrees, scaled by 1000:
/// the rational approximation `4p / (40500 - p)` with `p = a(180 - a)`
/// carried out in millidegrees. Exact at 0, 90 and 180 degrees.
pub open spec fn spec_sin_half(a: int) -> int
    recommends
        0 <= a <= 180000,
{
    let p = a * (180000 - a);
    4000 * p / (40500000000 - p)
}

/// Sine of a normalized angle in `[0, 360000)` millidegrees, scaled by 1000.
pub open spec fn spec_sin(a: int) -> int
    recommends
        0 <= a < 360000,
{
    if a <= 180000 {
        spec_sin_half(a)
    } else {
        -spec_sin_half(a - 180000)
    }
}

/// Cosine of a normalized angle in `[0, 360000)` millidegrees, scaled by 1000.
pub open spec fn spec_cos(a: int) -> int
    recommends
        0 <= a < 360000,
{
    if a < 270000 {
        spec_sin(a + 90000)
    } else {
        spec_sin(a - 270000)
    }
}

fn sin_half(a: i64) -> (r: i64)
    requires
        0 <= a <= 180000,
    ensures
        r == spec_sin_half(a as int),
        0 <= r <= 1000,
{
    let au: u64 = a as u64;
    proof {
        assert(au * (180000 - au) <= 8100000000) by (nonlinear_arith)
            requires
                au <= 180000u64,
        ;
    }
    let p: u64 = au * (180000 - au);
    let num: u64 = 4000 * p;
    let den: u64 = 40500000000 - p;
    let r: u64 = num / den;
    proof {
        lemma_div_pos_is_pos(num as int, den as int);
        assert(num <= den * 1000) by {
            assert(5 * p <= 40500000000);
        }
        lemma_multiply_divide_le(num as int, den as int, 1000);
    }
    r as i64
}

/// Sine, scaled by 1000, of an angle already normalized into `[0, 360000)`.
pub fn sin_mdeg(a: i64) -> (r: i64)
    requires
        0 <= a < 360000,
    ensures
        r == spec_sin(a as int),
        -1000 <= r <= 1000,
{
    if a <= 180000 {
        sin_half(a)
    } else {
        -sin_half(a - 180000)
    }
}

/// Cosine, scaled by 1000, of an angle already normalized into `[0, 360000)`.
pub fn cos_mdeg(a: i64) -> (r: i64)
    requires
        0 <= a < 360000,
    ensures
        r == spec_cos(a as int),
        -1000 <= r <= 1000,
{
    if a < 270000 {
        sin_mdeg(a + 90000)
    } else {
        sin_mdeg(a - 270000)
    }
}

/// The sine approximation never leaves the unit range.
pub proof fn lemma_sin_half_range(a: int)
    requires
        0 <= a <= 180000,
    ensures
        0 <= spec_sin_half(a) <= 1000,
{
    let p = a * (180000 - a);
    assert(0 <= p <= 8100000000) by (nonlinear_arith)
        requires
            0 <= a <= 180000,
            p == a * (180000 - a),
    ;
    lemma_div_pos_is_pos(4000 * p, 40500000000 - p);
    lemma_multiply_divide_le(4000 * p, 40500000000 - p, 1000);
}

/// Sine and cosine, scaled by 1000, stay within the unit range.
pub proof fn lemma_sin_cos_range(a: int)
    requires
        0 <= a < 360000,
    ensures
        -1000 <= spec_sin(a) <= 1000,
        -1000 <= spec_cos(a) <= 1000,
{
    if a <= 180000 {
        lemma_sin_half_range(a);
    } else {
        lemma_sin_half_range(a - 180000);
    }
    if a < 270000 {
        if a + 90000 <= 180000 {
            lemma_sin_half_range(a + 90000);
        } else {
            lemma_sin_half_range(a + 90000 - 180000);
        }
    } else {
        lemma_sin_half_range(a - 270000);
    }
}

/// Arctangent in millidegrees of a ratio `z` scaled by a million,
/// `0 <= z <= 450000` (so at most roughly 24 degrees): the odd series up to
/// the eleventh power, evaluated at scale a million, then converted from
/// radians to millidegrees.
pub open spec fn spec_atan_taylor(z: int) -> int
    recommends
        0 <= z <= 450000,
{
    let zz = z * z / 1000000;
    let t3 = z * zz / 1000000;
    let t5 = t3 * zz / 1000000;
    let t7 = t5 * zz / 1000000;
    let t9 = t7 * zz / 1000000;
    let t11 = t9 * zz / 1000000;
    let s = z + t5 / 5 + t9 / 9 - t3 / 3 - t7 / 7 - t11 / 11;
    s * 5729577951 / 100000000000
}

fn atan_taylor(z: u64) -> (r: u64)
    requires
        z <= 450000,
    ensures
        r == spec_atan_taylor(z as int),
        r <= 26200,
{
    proof {
        assert(z * z <= 202500000000) by (nonlinear_arith)
            requires
                z <= 450000u64,
        ;
    }
    let zz: u64 = z * z / 1000000;
    proof {
        lemma_multiply_divide_le((z * z) as int, 1000000, 202500);
        assert(z * zz <= 450000 * 202500) by (nonlinear_arith)
            requires
                z <= 450000u64,
                zz <= 202500u64,
        ;
    }
    let t3: u64 = z * zz / 1000000;
    proof {
        lemma_multiply_divide_le((z * zz) as int, 1000000, 91125);
        assert(t3 * zz <= 91125 * 202500) by (nonlinear_arith)
            requires
                t3 <= 91125u64,
                zz <= 202500u64,
        ;
    }
    let t5: u64 = t3 * zz / 1000000;
    proof {
        lemma_multiply_divide_le((t3 * zz) as int, 1000000, 18453);
        assert(t5 * zz <= 18453 * 202500) by (nonlinear_arith)
            requires
                t5 <= 18453u64,
                zz <= 202500u64,
        ;
    }
    let t7: u64 = t5 * zz / 1000000;
    proof {
        lemma_multiply_divide_le((t5 * zz) as int, 1000000, 3737);
        assert(t7 * zz <= 3737 * 202500) by (nonlinear_arith)
            requires
                t7 <= 3737u64,
                zz <= 202500u64,
        ;
    }
    let t9: u64 = t7 * zz / 1000000;
    proof {
        lemma_multiply_divide_le((t7 * zz) as int, 1000000, 757);
        assert(t9 * zz <= 757 * 202500) by (nonlinear_arith)
            requires
                t9 <= 757u64,
                zz <= 202500u64,
        ;
    }
    let t11: u64 = t9 * zz / 1000000;
    proof {
        lemma_multiply_divide_le((t9 * zz) as int, 1000000, 154);
        // Each term is bounded by the one before it, so the three
        // subtracted terms together stay below `z` itself.
        assert(z * zz <= z * 1000000) by (nonlinear_arith)
            requires
                zz <= 1000000u64,
        ;
        lemma_multiply_divide_le((z * zz) as int, 1000000, z as int);
        assert(t3 * zz <= t3 * 1000000) by (nonlinear_arith)
            requires
                zz <= 1000000u64,
        ;
        lemma_multiply_divide_le((t3 * zz) as int, 1000000, t3 as int);
        assert(t5 * zz <= t5 * 1000000) by (nonlinear_arith)
            requires
                zz <= 1000000u64,
        ;
        lemma_multiply_divide_le((t5 * zz) as int, 1000000, t5 as int);
        assert(t7 * zz <= t7 * 1000000) by (nonlinear_arith)
            requires
                zz <= 1000000u64,
        ;
        lemma_multiply_divide_le((t7 * zz) as int, 1000000, t7 as int);
        assert(t9 * zz <= t9 * 1000000) by (nonlinear_arith)
            requires
                zz <= 1000000u64,
        ;
        lemma_multiply_divide_le((t9 * zz) as int, 1000000, t9 as int);
        lemma_div_is_ordered(t3 as int, z as int, 3);
        lemma_div_is_ordered(t7 as int, z as int, 7);
        lemma_div_is_ordered(t11 as int, z as int, 11);
        lemma_div_is_ordered_by_denominator(z as int, 3, 7);
        lemma_div_is_ordered_by_denominator(z as int, 3, 11);
        lemma_fundamental_div_mod(z as int, 3);
        lemma_mod_bound(z as int, 3);
        lemma_div_pos_is_pos(t3 as int, 3);
        lemma_div_pos_is_pos(t7 as int, 7);
        lemma_div_pos_is_pos(t11 as int, 11);
        lemma_div_nonincreasing(t5 as int, 5);
        lemma_div_nonincreasing(t9 as int, 9);
    }
    let s: u64 = z + t5 / 5 + t9 / 9 - t3 / 3 - t7 / 7 - t11 / 11;
    proof {
        assert(s <= 455741);
        assert(s * 5729577951 <= 455741 * 5729577951) by (nonlinear_arith)
            requires
                s <= 455741u64,
        ;
        lemma_multiply_divide_le((s * 5729577951) as int, 100000000000, 26200);
    }
    s * 5729577951 / 100000000000
}

/// Arctangent in millidegrees of `n/d` with `0 <= n <= d`, so a value in
/// `[0, 45000]`. Ratios above tan 22.5 degrees go through the identity
/// `atan t = 45 - atan((1 - t) / (1 + t))` to keep the series short.
pub open spec fn spec_atan_ratio(n: int, d: int) -> int
    recommends
        0 <= n <= d,
        0 < d,
{
    let z = n * 1000000 / d;
    if z > 414213 {
        45000 - spec_atan_taylor((1000000 - z) * 1000000 / (1000000 + z))
    } else {
        spec_atan_taylor(z)
    }
}

fn atan_ratio(n: u64, d: u64) -> (r: u64)
    requires
        n <= d,
        0 < d,
        d <= 4100000000000,
    ensures
        r == spec_atan_ratio(n as int, d as int),
        r <= 45000,
{
    proof {
        assert(n * 1000000 <= d * 1000000) by (nonlinear_arith)
            requires
                n <= d,
        ;
        assert(d * 1000000 <= 4100000000000 * 1000000) by (nonlinear_arith)
            requires
                d <= 4100000000000u64,
        ;
        lemma_div_is_ordered((n * 1000000) as int, (d * 1000000) as int, d as int);
        lemma_div_multiples_vanish(1000000, d as int);
        lemma_div_pos_is_pos((n * 1000000) as int, d as int);
    }
    let z: u64 = n * 1000000 / d;
    if z > 414213 {
        proof {
            assert((1000000 - z) * 1000000 <= (1000000 + z) * 450000) by (nonlinear_arith)
                requires
                    414213u64 < z <= 1000000u64,
            ;
            lemma_multiply_divide_le(((1000000 - z) * 1000000) as int, (1000000 + z) as int, 450000);
            lemma_div_pos_is_pos(((1000000 - z) * 1000000) as int, (1000000 + z) as int);
        }
        let w: u64 = (1000000 - z) * 1000000 / (1000000 + z);
        45000 - atan_taylor(w)
    } else {
        atan_taylor(z)
    }
}

/// Signed bearing of the vector `(x, y)` in millidegrees, in
/// `[-180000, 180000]`, measured from the positive x axis, counterclockwise
/// positive. The zero vector maps to 0.
pub open spec fn spec_atan2(y: int, x: int) -> int {
    let ax = if x >= 0 { x } else { -x };
    let ay = if y >= 0 { y } else { -y };
    if ax == 0 && ay == 0 {
        0
    } else {
        let base = if ay <= ax {
            spec_atan_ratio(ay, ax)
        } else {
            90000 - spec_atan_ratio(ax, ay)
        };
        if x >= 0 && y >= 0 {
            base
        } else if x < 0 && y >= 0 {
            180000 - base
        } else if x < 0 {
            -(180000 - base)
        } else {
            -base
        }
    }
}

/// Signed bearing of the vector `(x, y)` in millidegrees.
pub fn atan2_mdeg(y: i64, x: i64) -> (r: i64)
    requires
        -4100000000000 <= x <= 4100000000000,
        -4100000000000 <= y <= 4100000000000,
    ensures
        r == spec_atan2(y as int, x as int),
        -180000 <= r <= 180000,
{
    let ax: u64 = crate::num::abs_i64(x);
    let ay: u64 = crate::num::abs_i64(y);
    if ax == 0 && ay == 0 {
        return 0;
    }
    let base: u64 = if ay <= ax {
        atan_ratio(ay, ax)
    } else {
        90000 - atan_ratio(ax, ay)
    };
    let b: i64 = base as i64;
    if x >= 0 && y >= 0 {
        b
    } else if x < 0 && y >= 0 {
        180000 - b
    } else if x < 0 {
        -(180000 - b)
    } else {
        -b
    }
}

/// The representative of an angle in `[0, 360000)` millidegrees.
pub open spec fn spec_norm_mdeg(a: int) -> int {
    a % 360000
}

/// Normalize an angle into `[0, 360000)` millidegrees.
pub fn norm_mdeg(a: i64) -> (r: i64)
    requires
        a != i64::MIN,
    ensures
        r == spec_norm_mdeg(a as int),
        0 <= r < 360000,
{
    let m: u64 = crate::num::abs_i64(a) % 360000;
    let r: i64 = if a >= 0 {
        m as i64
    } else if m == 0 {
        0
    } else {
        360000 - (m as i64)
    };
    proof {
        let aa = a as int;
        if a >= 0 {
            assert(r == aa % 360000);
        } else {
            let k = (-aa) / 360000;
            lemma_fundamental_div_mod(-aa, 360000);
            if m == 0 {
                lemma_fundamental_div_mod_converse_mod(aa, 360000, -k, 0);
            } else {
                lemma_fundamental_div_mod_converse_mod(aa, 360000, -k - 1, 360000 - m as int);
            }
        }
    }
    r
}

/// Fold a signed angle difference into `[-180000, 180000]` millidegrees.
pub open spec fn spec_norm_signed(a: int) -> int
    recommends
        -360000 < a <= 540000,
{
    if a > 180000 {
        a - 360000
    } else if a < -180000 {
        a + 360000
    } else {
        a
    }
}

/// Fold a signed angle difference into `[-180000, 180000]` millidegrees.
pub fn norm_signed_mdeg(a: i64) -> (r: i64)
    requires
        -360000 < a <= 540000,
    ensures
        r == spec_norm_signed(a as int),
        -180000 <= r <= 180000,
{
    if a > 180000 {
        a - 360000
    } else if a < -180000 {
        a + 360000
    } else {
        a
    }
}

} // verus!
