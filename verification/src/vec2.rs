//! Plane vectors in fixed-point milli-units.

use vstd::prelude::*;
use crate::num::{div_trunc, div_i64};
use crate::trig::{spec_sin, spec_cos, sin_mdeg, cos_mdeg};

verus! {

/// A 2D vector; positions and velocities are measured in milli-units.
#[derive(Clone, Copy, PartialEq, Eq, Structural, Debug)]
pub struct Vec2 {
    pub x: i64,
    pub y: i64,
}

pub open spec fn dot_int(a: Vec2, b: Vec2) -> int {
    a.x * b.x + a.y * b.y
}

pub open spec fn perp_dot_int(a: Vec2, b: Vec2) -> int {
    a.x * b.y - a.y * b.x
}

pub open spec fn len_sq_int(a: Vec2) -> int {
    a.x * a.x + a.y * a.y
}

/// Squared distance between two points.
pub open spec fn dist_sq_int(a: Vec2, b: Vec2) -> int {
    (a.x - b.x) * (a.x - b.x) + (a.y - b.y) * (a.y - b.y)
}

/// Distance is symmetric: measuring from either endpoint gives the same
/// separation, so every pairwise collision test is order-independent.
pub proof fn lemma_dist_sq_symmetric(a: Vec2, b: Vec2)
    ensures
        dist_sq_int(a, b) == dist_sq_int(b, a),
{
    assert((a.x - b.x) * (a.x - b.x) == (b.x - a.x) * (b.x - a.x)) by (nonlinear_arith);
    assert((a.y - b.y) * (a.y - b.y) == (b.y - a.y) * (b.y - a.y)) by (nonlinear_arith);
}

impl Vec2 {
    pub open spec fn wf_coarse(self) -> bool {
        -1000000000 <= self.x <= 1000000000 && -1000000000 <= self.y <= 1000000000
    }

    pub fn plus(self, o: Vec2) -> (r: Vec2)
        requires
            self.wf_coarse(),
            o.wf_coarse(),
        ensures
            r.x == self.x + o.x,
            r.y == self.y + o.y,
    {
        Vec2 { x: self.x + o.x, y: self.y + o.y }
    }

    pub fn minus(self, o: Vec2) -> (r: Vec2)
        requires
            self.wf_coarse(),
            o.wf_coarse(),
        ensures
            r.x == self.x - o.x,
            r.y == self.y - o.y,
    {
        Vec2 { x: self.x - o.x, y: self.y - o.y }
    }

    /// Squared length, exact.
    pub fn len_sq(self) -> (r: u64)
        requires
            self.wf_coarse(),
        ensures
            r == len_sq_int(self),
    {
        proof {
            assert(self.x * self.x <= 1000000000000000000 && self.x * self.x >= 0)
                by (nonlinear_arith)
                requires
                    -1000000000 <= self.x <= 1000000000,
            ;
            assert(self.y * self.y <= 1000000000000000000 && self.y * self.y >= 0)
                by (nonlinear_arith)
                requires
                    -1000000000 <= self.y <= 1000000000,
            ;
        }
        let xx: i64 = self.x * self.x;
        let yy: i64 = self.y * self.y;
        (xx + yy) as u64
    }
}

/// Squared distance between two points, exact.
pub fn dist_sq(a: Vec2, b: Vec2) -> (r: u64)
    requires
        -500000000 <= a.x <= 500000000,
        -500000000 <= a.y <= 500000000,
        -500000000 <= b.x <= 500000000,
        -500000000 <= b.y <= 500000000,
    ensures
        r == dist_sq_int(a, b),
{
    let d = a.minus(b);
    let r = d.len_sq();
    proof {
        assert(len_sq_int(d) == dist_sq_int(a, b));
    }
    r
}

/// A vector rotated by an angle, at the 1000 scale of the trig tables:
/// each component of the result is the usual rotation formula with the
/// fixed-point sine and cosine, divided back down by 1000.
pub open spec fn spec_rotate(v: Vec2, rot: int) -> Vec2
    recommends
        0 <= rot < 360000,
{
    let c = spec_cos(rot);
    let s = spec_sin(rot);
    Vec2 {
        x: div_trunc(v.x * c - v.y * s, 1000) as i64,
        y: div_trunc(v.x * s + v.y * c, 1000) as i64,
    }
}

/// Rotation cannot grow a vector beyond the sum of the magnitudes of its
/// components.
pub proof fn lemma_rotate_bounds(v: Vec2, rot: int, m: int)
    requires
        0 <= rot < 360000,
        0 <= m <= 1000000000000,
        crate::num::abs_int(v.x as int) + crate::num::abs_int(v.y as int) <= m,
    ensures
        -m <= spec_rotate(v, rot).x <= m,
        -m <= spec_rotate(v, rot).y <= m,
{
    crate::trig::lemma_sin_cos_range(rot);
    let c = spec_cos(rot);
    let s = spec_sin(rot);
    let ax = crate::num::abs_int(v.x as int);
    let ay = crate::num::abs_int(v.y as int);
    assert(-(ax * 1000) <= v.x * c <= ax * 1000) by (nonlinear_arith)
        requires
            -1000 <= c <= 1000,
            ax == crate::num::abs_int(v.x as int),
    ;
    assert(-(ay * 1000) <= v.y * s <= ay * 1000) by (nonlinear_arith)
        requires
            -1000 <= s <= 1000,
            ay == crate::num::abs_int(v.y as int),
    ;
    assert(-(ax * 1000) <= v.x * s <= ax * 1000) by (nonlinear_arith)
        requires
            -1000 <= s <= 1000,
            ax == crate::num::abs_int(v.x as int),
    ;
    assert(-(ay * 1000) <= v.y * c <= ay * 1000) by (nonlinear_arith)
        requires
            -1000 <= c <= 1000,
            ay == crate::num::abs_int(v.y as int),
    ;
    assert(1000 * m / 1000 == m) by {
        vstd::arithmetic::div_mod::lemma_div_multiples_vanish(m, 1000);
    }
    crate::num::lemma_div_trunc_bounds(v.x * c - v.y * s, 1000 * m, 1000);
    crate::num::lemma_div_trunc_bounds(v.x * s + v.y * c, 1000 * m, 1000);
}

/// Rotate a vector counterclockwise by `rot` millidegrees.
pub fn rotate(v: Vec2, rot: i64) -> (r: Vec2)
    requires
        -500000000 <= v.x <= 500000000,
        -500000000 <= v.y <= 500000000,
        0 <= rot < 360000,
    ensures
        r == spec_rotate(v, rot as int),
        r.wf_coarse(),
{
    let c: i64 = cos_mdeg(rot);
    let s: i64 = sin_mdeg(rot);
    proof {
        assert(-500000000000 <= v.x * c <= 500000000000) by (nonlinear_arith)
            requires
                -500000000 <= v.x <= 500000000,
                -1000 <= c <= 1000,
        ;
        assert(-500000000000 <= v.y * s <= 500000000000) by (nonlinear_arith)
            requires
                -500000000 <= v.y <= 500000000,
                -1000 <= s <= 1000,
        ;
        assert(-500000000000 <= v.x * s <= 500000000000) by (nonlinear_arith)
            requires
                -500000000 <= v.x <= 500000000,
                -1000 <= s <= 1000,
        ;
        assert(-500000000000 <= v.y * c <= 500000000000) by (nonlinear_arith)
            requires
                -500000000 <= v.y <= 500000000,
                -1000 <= c <= 1000,
        ;
    }
    let tx: i64 = v.x * c - v.y * s;
    let ty: i64 = v.x * s + v.y * c;
    let rx: i64 = div_i64(tx, 1000);
    let ry: i64 = div_i64(ty, 1000);
    proof {
        crate::num::lemma_div_trunc_bounds(tx as int, 1000000000000, 1000);
        crate::num::lemma_div_trunc_bounds(ty as int, 1000000000000, 1000);
    }
    Vec2 { x: rx, y: ry }
}

} // verus!
