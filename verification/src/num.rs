//! Fixed-point arithmetic helpers: truncating signed division, clamping,
//! and an exact integer square root.

use vstd::prelude::*;
use vstd::arithmetic::mul::*;
use vstd::arithmetic::div_mod::*;

verus! {

/// Magnitude of a signed value as a mathematical integer.
pub open spec fn abs_int(n: int) -> int {
    if n >= 0 {
        n
    } else {
        -n
    }
}

/// Division truncating toward zero, as machine division performs it.
pub open spec fn div_trunc(n: int, d: int) -> int
    recommends
        d > 0,
{
    if n >= 0 {
        n / d
    } else {
        -((-n) / d)
    }
}

pub open spec fn spec_clamp(n: int, lo: int, hi: int) -> int
    recommends
        lo <= hi,
{
    if n < lo {
        lo
    } else if n > hi {
        hi
    } else {
        n
    }
}

pub fn abs_i64(n: i64) -> (r: u64)
    requires
        n != i64::MIN,
    ensures
        r == abs_int(n as int),
{
    if n < 0 {
        (-n) as u64
    } else {
        n as u64
    }
}

pub fn clamp_i64(n: i64, lo: i64, hi: i64) -> (r: i64)
    requires
        lo <= hi,
    ensures
        r == spec_clamp(n as int, lo as int, hi as int),
{
    if n < lo {
        lo
    } else if n > hi {
        hi
    } else {
        n
    }
}

/// Multiply two signed fixed-point values and divide by a positive scale,
/// truncating toward zero. The workhorse for all scaled products.
pub fn mul_div_i64(a: i64, b: i64, d: u64) -> (r: i64)
    requires
        d > 0,
        a != i64::MIN,
        b != i64::MIN,
        abs_int(a as int * b as int) / (d as int) <= i64::MAX,
    ensures
        r == div_trunc(a as int * b as int, d as int),
{
    let ua: u64 = abs_i64(a);
    let ub: u64 = abs_i64(b);
    proof {
        assert(ua as int * ub as int == abs_int(a as int * b as int)) by (nonlinear_arith)
            requires
                ua == abs_int(a as int),
                ub == abs_int(b as int),
        ;
        assert((ua as u128) * (ub as u128) <= u128::MAX) by (nonlinear_arith)
            requires
                ua <= u64::MAX,
                ub <= u64::MAX,
        ;
    }
    let q: u128 = (ua as u128) * (ub as u128) / (d as u128);
    proof {
        assert(q as int == abs_int(a as int * b as int) / (d as int));
        assert(q <= i64::MAX as u128);
    }
    if (a < 0) != (b < 0) {
        proof {
            assert(a as int * b as int <= 0) by (nonlinear_arith)
                requires
                    (a < 0 && b >= 0) || (a >= 0 && b < 0),
            ;
            if a as int * b as int == 0 {
                lemma_div_of0(d as int);
            }
        }
        -(q as i64)
    } else {
        proof {
            assert(a as int * b as int >= 0) by (nonlinear_arith)
                requires
                    (a < 0 && b < 0) || (a >= 0 && b >= 0),
            ;
        }
        q as i64
    }
}

/// Truncating division of a signed value by a positive divisor.
pub fn div_i64(a: i64, d: u64) -> (r: i64)
    requires
        d > 0,
        a != i64::MIN,
    ensures
        r == div_trunc(a as int, d as int),
{
    let ua: u64 = abs_i64(a);
    let q: u64 = ua / d;
    proof {
        lemma_div_nonincreasing(ua as int, d as int);
        lemma_div_pos_is_pos(ua as int, d as int);
    }
    if a < 0 {
        -(q as i64)
    } else {
        q as i64
    }
}

/// Truncating division with a divisor of either sign.
pub open spec fn div_trunc_signed(n: int, d: int) -> int
    recommends
        d != 0,
{
    if d > 0 {
        div_trunc(n, d)
    } else {
        div_trunc(-n, -d)
    }
}

/// Truncating division of signed values, divisor of either sign.
pub fn div_signed_i64(n: i64, d: i64) -> (r: i64)
    requires
        d != 0,
        n != i64::MIN,
        d != i64::MIN,
    ensures
        r == div_trunc_signed(n as int, d as int),
{
    let un: u64 = abs_i64(n);
    let ud: u64 = abs_i64(d);
    let q: u64 = un / ud;
    proof {
        lemma_div_nonincreasing(un as int, ud as int);
        lemma_div_pos_is_pos(un as int, ud as int);
    }
    if (n < 0) != (d < 0) {
        -(q as i64)
    } else {
        q as i64
    }
}

/// A symmetric bound on a truncating quotient from a bound on the dividend.
pub proof fn lemma_div_trunc_bounds(n: int, m: int, d: int)
    requires
        d > 0,
        0 <= m,
        -m <= n <= m,
    ensures
        -(m / d) <= div_trunc(n, d) <= m / d,
{
    if n >= 0 {
        lemma_div_pos_is_pos(n, d);
        lemma_div_is_ordered(n, m, d);
    } else {
        lemma_div_pos_is_pos(-n, d);
        lemma_div_is_ordered(-n, m, d);
    }
}

/// The unique nonnegative integer square root of a nonnegative value.
pub open spec fn spec_isqrt(n: int) -> int
    recommends
        n >= 0,
{
    choose|r: int| 0 <= r && #[trigger] (r * r) <= n && n < (r + 1) * (r + 1)
}

/// Any two values satisfying the square-root property coincide.
pub proof fn lemma_isqrt_unique(n: int, r1: int, r2: int)
    requires
        0 <= r1 && r1 * r1 <= n && n < (r1 + 1) * (r1 + 1),
        0 <= r2 && r2 * r2 <= n && n < (r2 + 1) * (r2 + 1),
    ensures
        r1 == r2,
{
    if r1 < r2 {
        assert((r1 + 1) * (r1 + 1) <= r2 * r2) by (nonlinear_arith)
            requires
                0 <= r1 < r2,
        ;
    }
    if r2 < r1 {
        assert((r2 + 1) * (r2 + 1) <= r1 * r1) by (nonlinear_arith)
            requires
                0 <= r2 < r1,
        ;
    }
}

/// Exact floor square root by bisection.
pub fn isqrt_u128(n: u128) -> (r: u64)
    ensures
        r as int * r as int <= n as int,
        (n as int) < (r as int + 1) * (r as int + 1),
        r == spec_isqrt(n as int),
{
    let mut lo: u128 = 0;
    let mut hi: u128 = 0x1_0000_0000_0000_0000;
    proof {
        assert((n as int) < hi as int * hi as int) by (nonlinear_arith)
            requires
                hi == 0x1_0000_0000_0000_0000u128,
                n <= u128::MAX,
        ;
    }
    while hi - lo > 1
        invariant
            lo < hi,
            hi <= 0x1_0000_0000_0000_0000,
            lo as int * lo as int <= n as int,
            (n as int) < hi as int * hi as int,
        decreases hi - lo,
    {
        let mid: u128 = lo + (hi - lo) / 2;
        proof {
            assert(lo < mid < hi);
            assert(mid as int * mid as int <= u128::MAX) by (nonlinear_arith)
                requires
                    mid < 0x1_0000_0000_0000_0000u128,
            ;
        }
        if mid * mid <= n {
            lo = mid;
        } else {
            hi = mid;
        }
    }
    proof {
        assert(hi == lo + 1);
        assert(lo < 0x1_0000_0000_0000_0000u128);
        let r = choose|r: int| 0 <= r && #[trigger] (r * r) <= n as int && (n as int) < (r + 1) * (r + 1);
        lemma_isqrt_unique(n as int, lo as int, r);
    }
    lo as u64
}

} // verus!
