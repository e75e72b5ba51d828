//! Bullets: straight-line projectiles with a fixed lifetime. Expiry and
//! collision are independent reasons for removal.

use vstd::prelude::*;
use crate::vec2::Vec2;
use crate::arena::{spec_wrap, wrap_vec};
use crate::params::{ARENA_LIMIT, BULLET_VEL_MAX};

verus! {

#[derive(Clone, Copy, Debug, PartialEq, Eq, Structural)]
pub struct Bullet {
    pub pos: Vec2,
    pub vel: Vec2,
    /// Mass, milli-kilograms; it scales the impulse handed to a ship on a
    /// hit.
    pub mass: i64,
    /// Tick the bullet was fired on.
    pub spawn: u64,
    /// Ticks the bullet lives after spawning.
    pub life: u64,
    /// Identity of the firing ship, so a bullet never hits its own cannon.
    pub owner: u64,
    pub color: u32,
    /// Set by the collision engine; a collided bullet is removed at the end
    /// of the tick.
    pub collided: bool,
}

impl Bullet {
    pub open spec fn wf(self) -> bool {
        &&& 0 <= self.pos.x <= ARENA_LIMIT
        &&& 0 <= self.pos.y <= ARENA_LIMIT
        &&& -BULLET_VEL_MAX <= self.vel.x <= BULLET_VEL_MAX
        &&& -BULLET_VEL_MAX <= self.vel.y <= BULLET_VEL_MAX
        &&& 0 < self.mass <= 1000000000
        &&& 1 <= self.life <= 1000000
        &&& self.spawn <= 0x1000000000000
    }

    /// Where one tick of drift takes the bullet: position advanced by its
    /// velocity and wrapped; nothing else changes.
    pub open spec fn spec_step(self, width: int, height: int) -> Bullet {
        Bullet {
            pos: Vec2 {
                x: spec_wrap(self.pos.x + self.vel.x, width) as i64,
                y: spec_wrap(self.pos.y + self.vel.y, height) as i64,
            },
            ..self
        }
    }

    /// One tick of motion.
    pub fn update(self, width: i64, height: i64) -> (r: Bullet)
        requires
            self.wf(),
            0 < width <= ARENA_LIMIT,
            0 < height <= ARENA_LIMIT,
        ensures
            r == self.spec_step(width as int, height as int),
            r.wf(),
    {
        let p = self.pos.plus(self.vel);
        Bullet { pos: wrap_vec(p, width, height), ..self }
    }

    /// A bullet spawned at `spawn` with lifetime `life` is expired at every
    /// query time from `spawn + life` on, and not before.
    pub open spec fn spec_expired(self, now: int) -> bool {
        now >= self.spawn + self.life
    }

    pub fn is_expired(self, now: u64) -> (r: bool)
        requires
            self.wf(),
        ensures
            r == self.spec_expired(now as int),
    {
        now >= self.spawn + self.life
    }

    /// Alive means neither collided nor expired.
    pub open spec fn spec_alive(self, now: int) -> bool {
        !self.collided && !self.spec_expired(now)
    }

    pub fn is_alive(self, now: u64) -> (r: bool)
        requires
            self.wf(),
        ensures
            r == self.spec_alive(now as int),
    {
        !self.collided && !self.is_expired(now)
    }
}

} // verus!
