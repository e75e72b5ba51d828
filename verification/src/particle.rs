//! Exhaust particles: purely cosmetic, but first-class entities with the
//! same update and lifecycle contract as everything else. Each tick a
//! particle drifts, gets a random nudge whose magnitude is its decaying
//! "wobble", and fades with elapsed life.

use vstd::prelude::*;
use crate::vec2::{Vec2, spec_rotate, rotate};
use crate::arena::{spec_wrap, wrap_vec};
use crate::num::{div_trunc, div_i64, spec_clamp, clamp_i64};
use crate::params::{ARENA_LIMIT, VEL_MAX};
use vstd::arithmetic::div_mod::*;

verus! {

#[derive(Clone, Copy, Debug, PartialEq, Eq, Structural)]
pub struct Particle {
    pub pos: Vec2,
    pub vel: Vec2,
    /// Magnitude of the random per-tick velocity nudge; decays toward zero.
    pub wobble: i64,
    /// Tick the particle was spawned on.
    pub spawn: u64,
    /// Ticks the particle lives after spawning.
    pub life: u64,
    pub color: u32,
}

/// Whether `moved` is `orig` stepped one tick for some nudge direction of
/// the full circle — the shape of every fact one can state about a
/// particle's randomized motion.
pub open spec fn spec_step_some_angle(moved: Particle, orig: Particle, width: int, height: int) -> bool {
    exists|ang: int| 0 <= ang < 360000 && moved == orig.spec_step(ang, width, height)
}

impl Particle {
    pub open spec fn wf(self) -> bool {
        &&& 0 <= self.pos.x <= ARENA_LIMIT
        &&& 0 <= self.pos.y <= ARENA_LIMIT
        &&& -VEL_MAX <= self.vel.x <= VEL_MAX
        &&& -VEL_MAX <= self.vel.y <= VEL_MAX
        &&& 0 <= self.wobble <= 1000000
        &&& 1 <= self.life <= 1000000
        &&& self.spawn <= 0x1000000000000
    }

    /// One tick of drift with the nudge direction given: the particle moves
    /// by its old velocity and wraps, then the wobble vector — the wobble
    /// magnitude rotated to the given angle — is added to the velocity
    /// (capped), and the wobble itself keeps only five percent.
    pub open spec fn spec_step(self, ang: int, width: int, height: int) -> Particle
        recommends
            0 <= ang < 360000,
    {
        let nudge = spec_rotate(Vec2 { x: self.wobble, y: 0 }, ang);
        Particle {
            pos: Vec2 {
                x: spec_wrap(self.pos.x + self.vel.x, width) as i64,
                y: spec_wrap(self.pos.y + self.vel.y, height) as i64,
            },
            vel: Vec2 {
                x: spec_clamp(self.vel.x + nudge.x, -VEL_MAX as int, VEL_MAX as int) as i64,
                y: spec_clamp(self.vel.y + nudge.y, -VEL_MAX as int, VEL_MAX as int) as i64,
            },
            wobble: div_trunc(self.wobble * 50, 1000) as i64,
            ..self
        }
    }

    /// One tick of motion with the nudge direction supplied by the caller;
    /// the randomized `update` below feeds it a drawn angle, tests can feed
    /// it a fixed one.
    pub fn update_with(self, ang: i64, width: i64, height: i64) -> (r: Particle)
        requires
            self.wf(),
            0 <= ang < 360000,
            0 < width <= ARENA_LIMIT,
            0 < height <= ARENA_LIMIT,
        ensures
            r == self.spec_step(ang as int, width as int, height as int),
            r.wf(),
    {
        let nudge = rotate(Vec2 { x: self.wobble, y: 0 }, ang);
        let pos = wrap_vec(self.pos.plus(self.vel), width, height);
        let vx = clamp_i64(self.vel.x + nudge.x, -VEL_MAX, VEL_MAX);
        let vy = clamp_i64(self.vel.y + nudge.y, -VEL_MAX, VEL_MAX);
        proof {
            crate::num::lemma_div_trunc_bounds(self.wobble * 50, 50000000, 1000);
            lemma_div_pos_is_pos(self.wobble * 50, 1000);
        }
        let wobble = div_i64(self.wobble * 50, 1000);
        Particle { pos, vel: Vec2 { x: vx, y: vy }, wobble, ..self }
    }

    /// One tick of motion with a random nudge direction: the result is the
    /// deterministic step for some angle of the full circle.
    pub fn update(self, width: i64, height: i64) -> (r: Particle)
        requires
            self.wf(),
            0 < width <= ARENA_LIMIT,
            0 < height <= ARENA_LIMIT,
        ensures
            exists|ang: int|
                0 <= ang < 360000 && r == self.spec_step(ang, width as int, height as int),
            r.wf(),
    {
        let ang: i64 = crate::rng::rand_range_u64(0, 360000) as i64;
        let r = self.update_with(ang, width, height);
        proof {
            assert(0 <= ang as int && (ang as int) < 360000 && r == self.spec_step(
                ang as int,
                width as int,
                height as int,
            ));
        }
        r
    }

    pub open spec fn spec_expired(self, now: int) -> bool {
        now >= self.spawn + self.life
    }

    pub fn is_expired(self, now: u64) -> (r: bool)
        requires
            self.wf(),
        ensures
            r == self.spec_expired(now as int),
    {
        now >= self.spawn + self.life
    }

    /// Fade-based opacity in per-mille: full at spawn, linearly down to
    /// zero at the end of life.
    pub open spec fn spec_alpha(self, now: int) -> int {
        if now <= self.spawn {
            1000
        } else if now >= self.spawn + self.life {
            0
        } else {
            1000 - (now - self.spawn) * 1000 / (self.life as int)
        }
    }

    pub fn alpha_permille(self, now: u64) -> (r: u64)
        requires
            self.wf(),
            now <= 0x1000000000000000,
        ensures
            r == self.spec_alpha(now as int),
            r <= 1000,
    {
        if now <= self.spawn {
            1000
        } else if now >= self.spawn + self.life {
            0
        } else {
            let e: u64 = now - self.spawn;
            proof {
                assert(e * 1000 < self.life * 1000) by (nonlinear_arith)
                    requires
                        e < self.life,
                ;
                lemma_multiply_divide_lt((e * 1000) as int, self.life as int, 1000);
                lemma_div_pos_is_pos((e * 1000) as int, self.life as int);
            }
            1000 - e * 1000 / self.life
        }
    }
}

} // verus!
