//! Asteroids: drifting, slowly spinning polygons. A hit destroys an
//! asteroid; if enough sides remain it splits into two smaller fragments
//! thrown out sideways from the impact.

use vstd::prelude::*;
use crate::vec2::{Vec2, len_sq_int};
use crate::arena::{spec_wrap, wrap_vec};
use crate::trig::{spec_norm_mdeg, norm_mdeg};
use crate::num::{div_trunc, spec_isqrt, isqrt_u128, mul_div_i64, div_i64};
use crate::params::{
    ARENA_LIMIT, VEL_MAX, ROT_VEL_MAX, MIN_SIDES, CHILD_SPEED_MIN, CHILD_SPEED_MAX,
    CHILD_SPIN_MAX,
};
use vstd::arithmetic::div_mod::*;

verus! {

#[derive(Clone, Copy, Debug, PartialEq, Eq, Structural)]
pub struct Asteroid {
    pub pos: Vec2,
    pub vel: Vec2,
    pub rot: i64,
    /// Spin, millidegrees per tick.
    pub rot_vel: i64,
    /// Collision radius in milli-units.
    pub size: i64,
    /// Side count: visual complexity and the splittability counter in one.
    pub sides: u32,
    /// Set by the collision engine; a collided asteroid is destroyed (and
    /// possibly split) at the end of the tick.
    pub collided: bool,
    /// The velocity of whatever destroyed the asteroid, recorded by the
    /// collision engine so the split can throw fragments sideways from it.
    pub impact: Vec2,
}

impl Asteroid {
    pub open spec fn wf(self) -> bool {
        &&& 0 <= self.pos.x <= ARENA_LIMIT
        &&& 0 <= self.pos.y <= ARENA_LIMIT
        &&& -VEL_MAX <= self.vel.x <= VEL_MAX
        &&& -VEL_MAX <= self.vel.y <= VEL_MAX
        &&& 0 <= self.rot < 360000
        &&& -ROT_VEL_MAX <= self.rot_vel <= ROT_VEL_MAX
        &&& 1 <= self.size <= 200000
        &&& MIN_SIDES <= self.sides <= 1000
        &&& -1000000 <= self.impact.x <= 1000000
        &&& -1000000 <= self.impact.y <= 1000000
    }

    /// One tick of drift: position advanced and wrapped, rotation advanced
    /// by the spin and normalized.
    pub open spec fn spec_step(self, width: int, height: int) -> Asteroid {
        Asteroid {
            pos: Vec2 {
                x: spec_wrap(self.pos.x + self.vel.x, width) as i64,
                y: spec_wrap(self.pos.y + self.vel.y, height) as i64,
            },
            rot: spec_norm_mdeg(self.rot + self.rot_vel) as i64,
            ..self
        }
    }

    pub fn update(self, width: i64, height: i64) -> (r: Asteroid)
        requires
            self.wf(),
            0 < width <= ARENA_LIMIT,
            0 < height <= ARENA_LIMIT,
        ensures
            r == self.spec_step(width as int, height as int),
            r.wf(),
    {
        let pos = wrap_vec(self.pos.plus(self.vel), width, height);
        let rot = norm_mdeg(self.rot + self.rot_vel);
        Asteroid { pos, rot, ..self }
    }
}

/// A fragment's size: eight tenths of the parent's, but never below the
/// smallest representable radius.
pub open spec fn spec_child_size(size: int) -> int {
    if size * 800 / 1000 >= 1 {
        size * 800 / 1000
    } else {
        1
    }
}

/// A vector scaled to the given speed: the direction is kept (through the
/// integer square root of the squared length), the magnitude replaced.
/// The zero vector, which has no direction, is sent along the x axis.
pub open spec fn spec_renorm(v: Vec2, speed: int) -> Vec2 {
    if v.x == 0 && v.y == 0 {
        Vec2 { x: speed as i64, y: 0 }
    } else {
        let len = spec_isqrt(len_sq_int(v));
        Vec2 {
            x: div_trunc(v.x * speed, len) as i64,
            y: div_trunc(v.y * speed, len) as i64,
        }
    }
}

/// Scale a vector to a given speed, keeping its direction.
pub fn renorm(v: Vec2, speed: i64) -> (r: Vec2)
    requires
        -1000000 <= v.x <= 1000000,
        -1000000 <= v.y <= 1000000,
        1 <= speed <= 1000000,
    ensures
        r == spec_renorm(v, speed as int),
        -speed <= r.x <= speed,
        -speed <= r.y <= speed,
{
    if v.x == 0 && v.y == 0 {
        return Vec2 { x: speed, y: 0 };
    }
    let ls: u64 = v.len_sq();
    let len: u64 = isqrt_u128(ls as u128);
    proof {
        assert(v.x * v.x >= 0 && v.y * v.y >= 0) by (nonlinear_arith);
        if len == 0 {
            assert(len_sq_int(v) == 0);
            assert(v.x == 0 && v.y == 0) by (nonlinear_arith)
                requires
                    v.x * v.x + v.y * v.y == 0,
            ;
        }
        assert(v.x * v.x <= ls && v.y * v.y <= ls);
        assert((len as int + 1) * (len as int + 1) == (len as int) * (len as int) + 2 * (
        len as int) + 1) by (nonlinear_arith);
        assert(-(len as int) <= v.x <= len as int) by (nonlinear_arith)
            requires
                v.x * v.x <= (len as int) * (len as int) + 2 * (len as int),
                len >= 1,
        ;
        assert(-(len as int) <= v.y <= len as int) by (nonlinear_arith)
            requires
                v.y * v.y <= (len as int) * (len as int) + 2 * (len as int),
                len >= 1,
        ;
        assert(v.x * speed <= (len as int) * speed && -((len as int) * speed) <= v.x * speed)
            by (nonlinear_arith)
            requires
                -(len as int) <= v.x <= len as int,
                speed >= 1,
        ;
        assert(v.y * speed <= (len as int) * speed && -((len as int) * speed) <= v.y * speed)
            by (nonlinear_arith)
            requires
                -(len as int) <= v.y <= len as int,
                speed >= 1,
        ;
        lemma_div_multiples_vanish(speed as int, len as int);
        crate::num::lemma_div_trunc_bounds(v.x * speed, (len as int) * speed, len as int);
        crate::num::lemma_div_trunc_bounds(v.y * speed, (len as int) * speed, len as int);
    }
    let rx = mul_div_i64(v.x, speed, len);
    let ry = mul_div_i64(v.y, speed, len);
    Vec2 { x: rx, y: ry }
}

/// One fragment of a split: the parent's position, one side fewer, eight
/// tenths of the size, and a fresh velocity along the given direction at
/// the given speed.
pub open spec fn spec_split_child(
    parent: Asteroid,
    dir: Vec2,
    speed: int,
    rot: int,
    spin: int,
) -> Asteroid {
    Asteroid {
        pos: parent.pos,
        vel: spec_renorm(dir, speed),
        rot: rot as i64,
        rot_vel: spin as i64,
        size: spec_child_size(parent.size as int) as i64,
        sides: (parent.sides - 1) as u32,
        collided: false,
        impact: Vec2 { x: 0, y: 0 },
    }
}

/// The impact vector rotated a quarter turn counterclockwise.
pub open spec fn spec_perp_ccw(v: Vec2) -> Vec2 {
    Vec2 { x: -v.y as i64, y: v.x }
}

/// The impact vector rotated a quarter turn clockwise.
pub open spec fn spec_perp_cw(v: Vec2) -> Vec2 {
    Vec2 { x: v.y, y: -v.x as i64 }
}

impl Asteroid {
    /// Split with the fragment randomness given: two children at the
    /// parent's position, thrown along the impact vector rotated a quarter
    /// turn either way at the given speeds, each with one side fewer and
    /// eight tenths of the size. Deterministic, so tests can pin every
    /// field; the randomized `split` below draws the six numbers.
    pub fn split_with(self, s1: i64, r1: i64, w1: i64, s2: i64, r2: i64, w2: i64) -> (c: (
        Asteroid,
        Asteroid,
    ))
        requires
            self.wf(),
            self.sides > MIN_SIDES,
            CHILD_SPEED_MIN <= s1 <= CHILD_SPEED_MAX,
            CHILD_SPEED_MIN <= s2 <= CHILD_SPEED_MAX,
            0 <= r1 < 360000,
            0 <= r2 < 360000,
            -CHILD_SPIN_MAX <= w1 <= CHILD_SPIN_MAX,
            -CHILD_SPIN_MAX <= w2 <= CHILD_SPIN_MAX,
        ensures
            c.0 == spec_split_child(self, spec_perp_ccw(self.impact), s1 as int, r1 as int, w1 as int),
            c.1 == spec_split_child(self, spec_perp_cw(self.impact), s2 as int, r2 as int, w2 as int),
            c.0.wf(),
            c.1.wf(),
            c.0.sides == self.sides - 1,
            c.1.sides == self.sides - 1,
    {
        proof {
            lemma_div_pos_is_pos(self.size * 800, 1000);
            lemma_multiply_divide_le(self.size * 800, 1000, self.size as int);
        }
        let sz: i64 = div_i64(self.size * 800, 1000);
        let size: i64 = if sz >= 1 {
            sz
        } else {
            1
        };
        let d1 = Vec2 { x: -self.impact.y, y: self.impact.x };
        let d2 = Vec2 { x: self.impact.y, y: -self.impact.x };
        let c1 = Asteroid {
            pos: self.pos,
            vel: renorm(d1, s1),
            rot: r1,
            rot_vel: w1,
            size,
            sides: self.sides - 1,
            collided: false,
            impact: Vec2 { x: 0, y: 0 },
        };
        let c2 = Asteroid {
            pos: self.pos,
            vel: renorm(d2, s2),
            rot: r2,
            rot_vel: w2,
            size,
            sides: self.sides - 1,
            collided: false,
            impact: Vec2 { x: 0, y: 0 },
        };
        (c1, c2)
    }

    /// Split with drawn randomness: for some speeds in the fragment speed
    /// range, headings in the full circle and spins within the spin bound,
    /// the result is exactly the deterministic split. Side count, size,
    /// position and the cleared flags hold for every outcome.
    pub fn split(self) -> (c: (Asteroid, Asteroid))
        requires
            self.wf(),
            self.sides > MIN_SIDES,
        ensures
            exists|s1: int, r1: int, w1: int|
                {
                    &&& CHILD_SPEED_MIN <= s1 <= CHILD_SPEED_MAX
                    &&& 0 <= r1 < 360000
                    &&& -CHILD_SPIN_MAX <= w1 <= CHILD_SPIN_MAX
                    &&& c.0 == spec_split_child(self, spec_perp_ccw(self.impact), s1, r1, w1)
                },
            exists|s2: int, r2: int, w2: int|
                {
                    &&& CHILD_SPEED_MIN <= s2 <= CHILD_SPEED_MAX
                    &&& 0 <= r2 < 360000
                    &&& -CHILD_SPIN_MAX <= w2 <= CHILD_SPIN_MAX
                    &&& c.1 == spec_split_child(self, spec_perp_cw(self.impact), s2, r2, w2)
                },
            c.0.wf(),
            c.1.wf(),
            c.0.sides == self.sides - 1,
            c.1.sides == self.sides - 1,
            c.0.pos == self.pos,
            c.1.pos == self.pos,
            !c.0.collided,
            !c.1.collided,
    {
        let s1: i64 = crate::rng::rand_range_u64(CHILD_SPEED_MIN as u64, CHILD_SPEED_MAX as u64
            + 1) as i64;
        let s2: i64 = crate::rng::rand_range_u64(CHILD_SPEED_MIN as u64, CHILD_SPEED_MAX as u64
            + 1) as i64;
        let r1: i64 = crate::rng::rand_range_u64(0, 360000) as i64;
        let r2: i64 = crate::rng::rand_range_u64(0, 360000) as i64;
        let w1: i64 = crate::rng::rand_range_u64(0, 2 * CHILD_SPIN_MAX as u64 + 1) as i64
            - CHILD_SPIN_MAX;
        let w2: i64 = crate::rng::rand_range_u64(0, 2 * CHILD_SPIN_MAX as u64 + 1) as i64
            - CHILD_SPIN_MAX;
        let c = self.split_with(s1, r1, w1, s2, r2, w2);
        proof {
            assert({
                &&& CHILD_SPEED_MIN <= (s1 as int) && (s1 as int) <= CHILD_SPEED_MAX
                &&& 0 <= (r1 as int) && (r1 as int) < 360000
                &&& -CHILD_SPIN_MAX <= (w1 as int) && (w1 as int) <= CHILD_SPIN_MAX
                &&& c.0 == spec_split_child(
                    self,
                    spec_perp_ccw(self.impact),
                    s1 as int,
                    r1 as int,
                    w1 as int,
                )
            });
            assert({
                &&& CHILD_SPEED_MIN <= (s2 as int) && (s2 as int) <= CHILD_SPEED_MAX
                &&& 0 <= (r2 as int) && (r2 as int) < 360000
                &&& -CHILD_SPIN_MAX <= (w2 as int) && (w2 as int) <= CHILD_SPIN_MAX
                &&& c.1 == spec_split_child(
                    self,
                    spec_perp_cw(self.impact),
                    s2 as int,
                    r2 as int,
                    w2 as int,
                )
            });
        }
        c
    }
}

/// Side counts only ever go down: every fragment of a split carries exactly
/// one side fewer than its parent and never falls under the minimum, and
/// the lifecycle splits nothing at or below the minimum, so the march of
/// side counts halts there.
pub proof fn lemma_split_sides(parent: Asteroid, dir: Vec2, speed: int, rot: int, spin: int)
    requires
        parent.wf(),
        parent.sides > MIN_SIDES,
    ensures
        spec_split_child(parent, dir, speed, rot, spin).sides == parent.sides - 1,
        spec_split_child(parent, dir, speed, rot, spin).sides >= MIN_SIDES,
{
}

} // verus!
