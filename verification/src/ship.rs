//! Ships: the kinematic integrator (friction, heading-relative thrust,
//! rotation), the cooldown-gated cannon with recoil, and the heat bookkeeping.
//! One call to `update` is one tick of one ship and is entirely
//! deterministic; randomness only enters through exhaust particles later in
//! their own updates.

use vstd::prelude::*;
use crate::vec2::{Vec2, spec_rotate, rotate, lemma_rotate_bounds};
use crate::arena::{spec_wrap, wrap_vec};
use crate::trig::{spec_norm_mdeg, norm_mdeg};
use crate::num::{div_trunc, spec_clamp, abs_int, div_i64, mul_div_i64, clamp_i64};
use crate::control::{ShipControl, spec_idle_control};
use crate::heat::{spec_heat_decay, heat_decay, spec_overheat_next, overheat_next};
use crate::bullet::Bullet;
use crate::particle::Particle;
use crate::params::{
    ARENA_LIMIT, VEL_MAX, ROT_VEL_MAX, ROT_DELTA, SHOT_SPEED, SHOT_LIFE_TICKS, COOLDOWN_TICKS,
    BULLET_MASS, SHIP_MASS, SHIP_THRUST, SHIP_RADIUS, THRUST_FRAC_FORWARD, THRUST_FRAC_AFT,
    THRUST_FRAC_STRAFE, FIRE_HEAT, THRUST_HEAT, ROTATE_HEAT, HEAT_CAP, PARTICLE_LIFE_TICKS,
};
use vstd::arithmetic::div_mod::*;

verus! {

/// Who decides a ship's intent each tick: externally sampled input, one of
/// the scripted pilots, or the aiming pilot that leads its target.
#[derive(Clone, Copy, Debug, PartialEq, Eq, Structural)]
pub enum ControlSource {
    /// Intent arrives from outside the core (human input sampling).
    External,
    /// No intent ever.
    Idle,
    /// The all-intents-at-once script.
    Hillarius,
    /// Rotates toward the intercept bearing of the nearest other ship and
    /// fires when lined up.
    Gunner,
}

pub const EXHAUST_COLOR: u32 = 0xffa500;

#[derive(Clone, Copy, Debug, PartialEq, Eq, Structural)]
pub struct Ship {
    pub id: u64,
    pub pos: Vec2,
    /// Heading angle, millidegrees; the heading vector is its cosine and
    /// sine.
    pub rot: i64,
    /// Angular velocity, millidegrees per tick.
    pub rot_vel: i64,
    pub vel: Vec2,
    /// Thrust in milli-newtons.
    pub thrust: i64,
    /// Mass in milli-kilograms.
    pub mass: i64,
    pub heat: u64,
    pub overheated: bool,
    pub health: i64,
    /// Tick of the last shot; the cannon is ready again a cooldown later.
    pub last_shot: u64,
    pub radius: i64,
    pub color: u32,
    pub source: ControlSource,
}

impl Ship {
    pub open spec fn wf(self) -> bool {
        &&& 0 <= self.pos.x <= ARENA_LIMIT
        &&& 0 <= self.pos.y <= ARENA_LIMIT
        &&& -VEL_MAX <= self.vel.x <= VEL_MAX
        &&& -VEL_MAX <= self.vel.y <= VEL_MAX
        &&& 0 <= self.rot < 360000
        &&& -ROT_VEL_MAX <= self.rot_vel <= ROT_VEL_MAX
        &&& 1000 <= self.mass <= 1000000000
        &&& 0 <= self.thrust <= 1000000000000
        &&& self.heat <= HEAT_CAP
        &&& -1000000 <= self.health <= 1000000
        &&& 1 <= self.radius <= 100000
        &&& self.last_shot <= 0x1000000000000
    }

    /// The intent actually acted on: an overheated ship is locked out of
    /// every action until the hysteresis releases.
    pub open spec fn spec_effective(self, c: ShipControl) -> ShipControl {
        if self.overheated {
            spec_idle_control()
        } else {
            c
        }
    }

    /// The cannon is ready once a full cooldown has elapsed since the last
    /// shot.
    pub open spec fn spec_ready(self, now: int) -> bool {
        now >= self.last_shot + COOLDOWN_TICKS
    }

    /// A shot leaves the barrel this tick exactly when fire is intended,
    /// the ship is not locked out, and the cooldown has elapsed.
    pub open spec fn spec_fires(self, c: ShipControl, now: int) -> bool {
        self.spec_effective(c).fire && self.spec_ready(now)
    }

    /// The muzzle velocity vector: shot speed along the heading.
    pub open spec fn spec_muzzle(self) -> Vec2 {
        spec_rotate(Vec2 { x: SHOT_SPEED, y: 0 }, self.rot as int)
    }

    /// Recoil of one shot: opposite the heading, scaled by the mass ratio
    /// of bullet to ship — momentum conservation.
    pub open spec fn spec_recoil(self) -> Vec2 {
        let m = self.spec_muzzle();
        Vec2 {
            x: -div_trunc(m.x * BULLET_MASS, self.mass as int) as i64,
            y: -div_trunc(m.y * BULLET_MASS, self.mass as int) as i64,
        }
    }

    /// The bullet a shot spawns: half a radius ahead of the ship along the
    /// heading, inheriting the ship's (post-recoil) velocity on top of
    /// muzzle speed, owned by the ship so it cannot hit its own hull.
    pub open spec fn spec_spawned_bullet(self, now: int, width: int, height: int) -> Bullet {
        let off = spec_rotate(Vec2 { x: (self.radius / 2) as i64, y: 0 }, self.rot as int);
        let m = self.spec_muzzle();
        let rec = self.spec_recoil();
        Bullet {
            pos: Vec2 {
                x: spec_wrap(self.pos.x + off.x, width) as i64,
                y: spec_wrap(self.pos.y + off.y, height) as i64,
            },
            vel: Vec2 {
                x: (self.vel.x + rec.x + m.x) as i64,
                y: (self.vel.y + rec.y + m.y) as i64,
            },
            mass: BULLET_MASS,
            spawn: now as u64,
            life: SHOT_LIFE_TICKS,
            owner: self.id,
            color: self.color,
            collided: false,
        }
    }

    /// The heading-local thrust vector in per-mille of full thrust:
    /// forward strongest, aft weaker, strafes weakest.
    pub open spec fn spec_thrust_local(c: ShipControl) -> Vec2 {
        Vec2 {
            x: ((if c.thrust_forward {
                THRUST_FRAC_FORWARD as int
            } else {
                0
            }) - (if c.thrust_aft {
                THRUST_FRAC_AFT as int
            } else {
                0
            })) as i64,
            y: ((if c.thrust_left {
                THRUST_FRAC_STRAFE as int
            } else {
                0
            }) - (if c.thrust_right {
                THRUST_FRAC_STRAFE as int
            } else {
                0
            })) as i64,
        }
    }

    /// Heat added this tick: a fixed amount per active maneuver intent plus
    /// the per-shot amount when a shot lands.
    pub open spec fn spec_heat_gain(c: ShipControl, fires: bool) -> int {
        (if c.thrust_forward {
            THRUST_HEAT as int
        } else {
            0
        }) + (if c.thrust_aft {
            THRUST_HEAT as int
        } else {
            0
        }) + (if c.thrust_left {
            THRUST_HEAT as int
        } else {
            0
        }) + (if c.thrust_right {
            THRUST_HEAT as int
        } else {
            0
        }) + (if c.rotate_left {
            ROTATE_HEAT as int
        } else {
            0
        }) + (if c.rotate_right {
            ROTATE_HEAT as int
        } else {
            0
        }) + (if fires {
            FIRE_HEAT as int
        } else {
            0
        })
    }

    /// One tick of the kinematic integrator and the weapon and heat
    /// subsystem, with the intent given. In order: rotation intents change
    /// angular velocity, which decays and turns the heading; friction
    /// (velocity over 1000), heading-relative thrust and any recoil change
    /// the velocity, which is capped; the position advances by the new
    /// velocity and wraps; heat decays then collects this tick's gains and
    /// drives the overheat hysteresis.
    pub open spec fn spec_step(self, c: ShipControl, now: int, width: int, height: int) -> Ship {
        let eff = self.spec_effective(c);
        let fires = self.spec_fires(c, now);
        let rv1 = self.rot_vel + (if eff.rotate_left {
            ROT_DELTA as int
        } else {
            0
        }) - (if eff.rotate_right {
            ROT_DELTA as int
        } else {
            0
        });
        let rv2 = div_trunc(rv1 * 900, 1000);
        let rot2 = spec_norm_mdeg(self.rot + rv2);
        let world = spec_rotate(Self::spec_thrust_local(eff), self.rot as int);
        let ax = div_trunc(world.x * self.thrust, self.mass * 1000);
        let ay = div_trunc(world.y * self.thrust, self.mass * 1000);
        let rec = if fires {
            self.spec_recoil()
        } else {
            Vec2 { x: 0, y: 0 }
        };
        let vx = spec_clamp(
            self.vel.x - div_trunc(self.vel.x as int, 1000) + ax + rec.x,
            -VEL_MAX as int,
            VEL_MAX as int,
        );
        let vy = spec_clamp(
            self.vel.y - div_trunc(self.vel.y as int, 1000) + ay + rec.y,
            -VEL_MAX as int,
            VEL_MAX as int,
        );
        let heat2 = spec_heat_decay(self.heat as int) + Self::spec_heat_gain(eff, fires);
        Ship {
            pos: Vec2 {
                x: spec_wrap(self.pos.x + vx, width) as i64,
                y: spec_wrap(self.pos.y + vy, height) as i64,
            },
            rot: rot2 as i64,
            rot_vel: rv2 as i64,
            vel: Vec2 { x: vx as i64, y: vy as i64 },
            heat: heat2 as u64,
            overheated: spec_overheat_next(heat2, self.overheated),
            last_shot: if fires {
                now as u64
            } else {
                self.last_shot
            },
            ..self
        }
    }

    /// Act on one tick's intent: integrate the motion, run the cannon, and
    /// account the heat. Returns the moved ship and the spawned bullet, if
    /// a shot left the barrel — which happens exactly when `spec_fires`
    /// says so.
    #[verifier::rlimit(50)]
    pub fn update(self, c: &ShipControl, now: u64, width: i64, height: i64) -> (r: (
        Ship,
        Option<Bullet>,
    ))
        requires
            self.wf(),
            0 < width <= ARENA_LIMIT,
            0 < height <= ARENA_LIMIT,
            now <= 0x1000000000000,
        ensures
            r.0 == self.spec_step(*c, now as int, width as int, height as int),
            r.1 == (if self.spec_fires(*c, now as int) {
                Some(self.spec_spawned_bullet(now as int, width as int, height as int))
            } else {
                Option::<Bullet>::None
            }),
            r.0.wf(),
            r.1 is Some ==> r.1->0.wf(),
    {
        let eff: ShipControl = if self.overheated {
            ShipControl::default()
        } else {
            *c
        };
        let fires: bool = eff.fire && now >= self.last_shot + COOLDOWN_TICKS;
        // Rotation: intents nudge the spin, the spin decays, the heading turns.
        let rv1: i64 = self.rot_vel + (if eff.rotate_left {
            ROT_DELTA
        } else {
            0
        }) - (if eff.rotate_right {
            ROT_DELTA
        } else {
            0
        });
        proof {
            crate::num::lemma_div_trunc_bounds(rv1 * 900, 29700000int, 1000);
        }
        let rv2: i64 = div_i64(rv1 * 900, 1000);
        let rot2: i64 = norm_mdeg(self.rot + rv2);
        // Linear acceleration: friction plus heading-relative thrust.
        let local: Vec2 = Vec2 {
            x: (if eff.thrust_forward {
                THRUST_FRAC_FORWARD
            } else {
                0
            }) - (if eff.thrust_aft {
                THRUST_FRAC_AFT
            } else {
                0
            }),
            y: (if eff.thrust_left {
                THRUST_FRAC_STRAFE
            } else {
                0
            }) - (if eff.thrust_right {
                THRUST_FRAC_STRAFE
            } else {
                0
            }),
        };
        let world: Vec2 = rotate(local, self.rot);
        let md: u64 = (self.mass as u64) * 1000;
        proof {
            assert(abs_int(world.x * self.thrust) <= 1000000000 * 1000000000000)
                by (nonlinear_arith)
                requires
                    -1000000000 <= world.x <= 1000000000,
                    0 <= self.thrust <= 1000000000000,
            ;
            assert(abs_int(world.y * self.thrust) <= 1000000000 * 1000000000000)
                by (nonlinear_arith)
                requires
                    -1000000000 <= world.y <= 1000000000,
                    0 <= self.thrust <= 1000000000000,
            ;
            lemma_div_is_ordered(
                abs_int(world.x * self.thrust),
                1000000000int * 1000000000000int,
                md as int,
            );
            lemma_div_is_ordered(
                abs_int(world.y * self.thrust),
                1000000000int * 1000000000000int,
                md as int,
            );
            lemma_div_pos_is_pos(abs_int(world.x * self.thrust), md as int);
            lemma_div_pos_is_pos(abs_int(world.y * self.thrust), md as int);
            lemma_div_is_ordered_by_denominator(1000000000int * 1000000000000int, 1000000, md as int);
            crate::num::lemma_div_trunc_bounds(
                world.x * self.thrust,
                1000000000int * 1000000000000int,
                md as int,
            );
            crate::num::lemma_div_trunc_bounds(
                world.y * self.thrust,
                1000000000int * 1000000000000int,
                md as int,
            );
        }
        let ax: i64 = mul_div_i64(world.x, self.thrust, md);
        let ay: i64 = mul_div_i64(world.y, self.thrust, md);
        // Recoil, if a shot lands this tick.
        let rec: Vec2 = if fires {
            self.recoil_impulse()
        } else {
            Vec2 { x: 0, y: 0 }
        };
        let fx: i64 = div_i64(self.vel.x, 1000);
        let fy: i64 = div_i64(self.vel.y, 1000);
        proof {
            crate::num::lemma_div_trunc_bounds(self.vel.x as int, VEL_MAX as int, 1000);
            crate::num::lemma_div_trunc_bounds(self.vel.y as int, VEL_MAX as int, 1000);
        }
        let vx: i64 = clamp_i64(self.vel.x - fx + ax + rec.x, -VEL_MAX, VEL_MAX);
        let vy: i64 = clamp_i64(self.vel.y - fy + ay + rec.y, -VEL_MAX, VEL_MAX);
        let pos: Vec2 = wrap_vec(Vec2 { x: self.pos.x + vx, y: self.pos.y + vy }, width, height);
        // Heat: decay, then this tick's gains, then the hysteresis.
        let hd: u64 = heat_decay(self.heat);
        let gains: u64 = (if eff.thrust_forward {
            THRUST_HEAT
        } else {
            0
        }) + (if eff.thrust_aft {
            THRUST_HEAT
        } else {
            0
        }) + (if eff.thrust_left {
            THRUST_HEAT
        } else {
            0
        }) + (if eff.thrust_right {
            THRUST_HEAT
        } else {
            0
        }) + (if eff.rotate_left {
            ROTATE_HEAT
        } else {
            0
        }) + (if eff.rotate_right {
            ROTATE_HEAT
        } else {
            0
        }) + (if fires {
            FIRE_HEAT
        } else {
            0
        });
        let heat2: u64 = hd + gains;
        let over2: bool = overheat_next(heat2, self.overheated);
        let shot: Option<Bullet> = if fires {
            Some(self.spawn_bullet(now, width, height))
        } else {
            None
        };
        let moved = Ship {
            pos,
            rot: rot2,
            rot_vel: rv2,
            vel: Vec2 { x: vx, y: vy },
            heat: heat2,
            overheated: over2,
            last_shot: if fires {
                now
            } else {
                self.last_shot
            },
            ..self
        };
        (moved, shot)
    }

    /// The speed readout for the instrument panel: the floor square root
    /// of the squared velocity, in milli-units per tick.
    pub fn speed(&self) -> (r: u64)
        requires
            self.wf(),
        ensures
            r == crate::num::spec_isqrt(crate::vec2::len_sq_int(self.vel)),
    {
        crate::num::isqrt_u128(self.vel.len_sq() as u128)
    }

    /// The recoil of one shot as an executable value.
    fn recoil_impulse(self) -> (r: Vec2)
        requires
            self.wf(),
        ensures
            r == self.spec_recoil(),
            -30000 <= r.x <= 30000,
            -30000 <= r.y <= 30000,
    {
        let m: Vec2 = rotate(Vec2 { x: SHOT_SPEED, y: 0 }, self.rot);
        proof {
            lemma_rotate_bounds(Vec2 { x: SHOT_SPEED, y: 0 }, self.rot as int, SHOT_SPEED as int);
            assert(abs_int(m.x * BULLET_MASS) <= 30000000) by (nonlinear_arith)
                requires
                    -30000 <= m.x <= 30000,
                    BULLET_MASS == 1000,
            ;
            assert(abs_int(m.y * BULLET_MASS) <= 30000000) by (nonlinear_arith)
                requires
                    -30000 <= m.y <= 30000,
                    BULLET_MASS == 1000,
            ;
            lemma_div_is_ordered(abs_int(m.x * BULLET_MASS), 30000000, self.mass as int);
            lemma_div_is_ordered(abs_int(m.y * BULLET_MASS), 30000000, self.mass as int);
            lemma_div_pos_is_pos(abs_int(m.x * BULLET_MASS), self.mass as int);
            lemma_div_pos_is_pos(abs_int(m.y * BULLET_MASS), self.mass as int);
            crate::num::lemma_div_trunc_bounds(m.x * BULLET_MASS, 30000000, self.mass as int);
            crate::num::lemma_div_trunc_bounds(m.y * BULLET_MASS, 30000000, self.mass as int);
            lemma_div_is_ordered_by_denominator(30000000, 1000, self.mass as int);
        }
        let rx: i64 = mul_div_i64(m.x, BULLET_MASS, self.mass as u64);
        let ry: i64 = mul_div_i64(m.y, BULLET_MASS, self.mass as u64);
        Vec2 { x: -rx, y: -ry }
    }

    /// The bullet of one shot as an executable value.
    fn spawn_bullet(self, now: u64, width: i64, height: i64) -> (r: Bullet)
        requires
            self.wf(),
            0 < width <= ARENA_LIMIT,
            0 < height <= ARENA_LIMIT,
            now <= 0x1000000000000,
        ensures
            r == self.spec_spawned_bullet(now as int, width as int, height as int),
            r.wf(),
    {
        proof {
            lemma_div_pos_is_pos(self.radius as int, 2);
            lemma_div_is_ordered(self.radius as int, 100000, 2);
        }
        let half: i64 = div_i64(self.radius, 2);
        proof {
            assert(div_trunc(self.radius as int, 2) == self.radius as int / 2);
        }
        let off: Vec2 = rotate(Vec2 { x: half, y: 0 }, self.rot);
        let m: Vec2 = rotate(Vec2 { x: SHOT_SPEED, y: 0 }, self.rot);
        proof {
            lemma_rotate_bounds(Vec2 { x: half, y: 0 }, self.rot as int, 100000);
            lemma_rotate_bounds(Vec2 { x: SHOT_SPEED, y: 0 }, self.rot as int, SHOT_SPEED as int);
        }
        let rec: Vec2 = self.recoil_impulse();
        let pos: Vec2 = wrap_vec(
            Vec2 { x: self.pos.x + off.x, y: self.pos.y + off.y },
            width,
            height,
        );
        Bullet {
            pos,
            vel: Vec2 { x: self.vel.x + rec.x + m.x, y: self.vel.y + rec.y + m.y },
            mass: BULLET_MASS,
            spawn: now,
            life: SHOT_LIFE_TICKS,
            owner: self.id,
            color: self.color,
            collided: false,
        }
    }
}

/// A ship with the standard hull parameters, at rest at the origin, cold,
/// at full health, steered by nobody.
pub open spec fn spec_default_ship() -> Ship {
    Ship {
        id: 0,
        pos: Vec2 { x: 0, y: 0 },
        rot: 0,
        rot_vel: 0,
        vel: Vec2 { x: 0, y: 0 },
        thrust: SHIP_THRUST,
        mass: SHIP_MASS,
        heat: 0,
        overheated: false,
        health: 10,
        last_shot: 0,
        radius: SHIP_RADIUS,
        color: 0,
        source: ControlSource::Idle,
    }
}

impl Default for Ship {
    /// A ship with the standard hull parameters, at rest at the origin,
    /// cold, at full health, steered by nobody.
    fn default() -> (r: Ship)
        ensures
            r == spec_default_ship(),
            r.wf(),
    {
        Ship {
            id: 0,
            pos: Vec2 { x: 0, y: 0 },
            rot: 0,
            rot_vel: 0,
            vel: Vec2 { x: 0, y: 0 },
            thrust: SHIP_THRUST,
            mass: SHIP_MASS,
            heat: 0,
            overheated: false,
            health: 10,
            last_shot: 0,
            radius: SHIP_RADIUS,
            color: 0,
            source: ControlSource::Idle,
        }
    }
}

/// Build a ship at a position with an identity, a color and a pilot; all
/// hull parameters are the standard ones.
pub fn spawn(id: u64, pos: Vec2, color: u32, source: ControlSource) -> (r: Ship)
    requires
        0 <= pos.x <= ARENA_LIMIT,
        0 <= pos.y <= ARENA_LIMIT,
    ensures
        r == (Ship { id, pos, color, source, ..spec_default_ship() }),
        r.wf(),
        r.health == 10,
        r.heat == 0,
        !r.overheated,
{
    Ship { id, pos, color, source, ..Ship::default() }
}

/// The exhaust particle pushed out by one active thruster.
pub open spec fn spec_exhaust_particle(
    s: Ship,
    dv: Vec2,
    off: Vec2,
    now: int,
    width: int,
    height: int,
) -> Particle {
    let wdv = spec_rotate(dv, s.rot as int);
    let woff = spec_rotate(off, s.rot as int);
    Particle {
        pos: Vec2 {
            x: spec_wrap(s.pos.x + woff.x, width) as i64,
            y: spec_wrap(s.pos.y + woff.y, height) as i64,
        },
        vel: Vec2 {
            x: spec_clamp(s.vel.x - 10 * wdv.x, -VEL_MAX as int, VEL_MAX as int) as i64,
            y: spec_clamp(s.vel.y - 10 * wdv.y, -VEL_MAX as int, VEL_MAX as int) as i64,
        },
        wobble: ((if dv.x >= 0 {
            dv.x as int
        } else {
            -dv.x
        }) + (if dv.y >= 0 {
            dv.y as int
        } else {
            -dv.y
        })) as i64,
        spawn: now as u64,
        life: PARTICLE_LIFE_TICKS,
        color: EXHAUST_COLOR,
    }
}

/// The exhaust of one tick: one particle per active thrust intent, in the
/// fixed order forward, aft, right, left.
pub open spec fn spec_exhaust(s: Ship, c: ShipControl, now: int, width: int, height: int) -> Seq<
    Particle,
> {
    let eff = s.spec_effective(c);
    (if eff.thrust_forward {
        seq![
            spec_exhaust_particle(
                s,
                Vec2 { x: THRUST_FRAC_FORWARD, y: 0 },
                Vec2 { x: ((-1000) as i64), y: 0 },
                now,
                width,
                height,
            ),
        ]
    } else {
        Seq::<Particle>::empty()
    }) + (if eff.thrust_aft {
        seq![
            spec_exhaust_particle(
                s,
                Vec2 { x: ((-THRUST_FRAC_AFT) as i64), y: 0 },
                Vec2 { x: 2000, y: 0 },
                now,
                width,
                height,
            ),
        ]
    } else {
        Seq::<Particle>::empty()
    }) + (if eff.thrust_right {
        seq![
            spec_exhaust_particle(
                s,
                Vec2 { x: 0, y: ((-THRUST_FRAC_STRAFE) as i64) },
                Vec2 { x: 0, y: 600 },
                now,
                width,
                height,
            ),
        ]
    } else {
        Seq::<Particle>::empty()
    }) + (if eff.thrust_left {
        seq![
            spec_exhaust_particle(
                s,
                Vec2 { x: 0, y: THRUST_FRAC_STRAFE },
                Vec2 { x: 0, y: ((-600) as i64) },
                now,
                width,
                height,
            ),
        ]
    } else {
        Seq::<Particle>::empty()
    })
}

/// Emit this tick's exhaust particles for a ship acting on an intent.
pub fn exhaust(s: &Ship, c: &ShipControl, now: u64, width: i64, height: i64) -> (r: Vec<Particle>)
    requires
        s.wf(),
        0 < width <= ARENA_LIMIT,
        0 < height <= ARENA_LIMIT,
        now <= 0x1000000000000,
    ensures
        r@ == spec_exhaust(*s, *c, now as int, width as int, height as int),
        forall|i: int| 0 <= i < r@.len() ==> #[trigger] r@[i].wf(),
{
    let eff: ShipControl = if s.overheated {
        ShipControl::default()
    } else {
        *c
    };
    let mut out: Vec<Particle> = Vec::new();
    if eff.thrust_forward {
        let p = exhaust_one(s, Vec2 { x: THRUST_FRAC_FORWARD, y: 0 }, Vec2 { x: -1000, y: 0 },
            now, width, height);
        out.push(p);
    }
    if eff.thrust_aft {
        let p = exhaust_one(s, Vec2 { x: -THRUST_FRAC_AFT, y: 0 }, Vec2 { x: 2000, y: 0 }, now,
            width, height);
        out.push(p);
    }
    if eff.thrust_right {
        let p = exhaust_one(s, Vec2 { x: 0, y: -THRUST_FRAC_STRAFE }, Vec2 { x: 0, y: 600 }, now,
            width, height);
        out.push(p);
    }
    if eff.thrust_left {
        let p = exhaust_one(s, Vec2 { x: 0, y: THRUST_FRAC_STRAFE }, Vec2 { x: 0, y: -600 }, now,
            width, height);
        out.push(p);
    }
    proof {
        assert(out@ =~= spec_exhaust(*s, *c, now as int, width as int, height as int));
    }
    out
}

/// One exhaust particle, executable.
fn exhaust_one(s: &Ship, dv: Vec2, off: Vec2, now: u64, width: i64, height: i64) -> (r: Particle)
    requires
        s.wf(),
        -1000 <= dv.x <= 1000,
        -1000 <= dv.y <= 1000,
        -2000 <= off.x <= 2000,
        -2000 <= off.y <= 2000,
        0 < width <= ARENA_LIMIT,
        0 < height <= ARENA_LIMIT,
        now <= 0x1000000000000,
    ensures
        r == spec_exhaust_particle(*s, dv, off, now as int, width as int, height as int),
        r.wf(),
{
    let wdv: Vec2 = rotate(dv, s.rot);
    let woff: Vec2 = rotate(off, s.rot);
    proof {
        lemma_rotate_bounds(dv, s.rot as int, 2000);
        lemma_rotate_bounds(off, s.rot as int, 4000);
    }
    let pos: Vec2 = wrap_vec(Vec2 { x: s.pos.x + woff.x, y: s.pos.y + woff.y }, width, height);
    let vx: i64 = clamp_i64(s.vel.x - 10 * wdv.x, -VEL_MAX, VEL_MAX);
    let vy: i64 = clamp_i64(s.vel.y - 10 * wdv.y, -VEL_MAX, VEL_MAX);
    let wob: i64 = (if dv.x >= 0 {
        dv.x
    } else {
        -dv.x
    }) + (if dv.y >= 0 {
        dv.y
    } else {
        -dv.y
    });
    Particle {
        pos,
        vel: Vec2 { x: vx, y: vy },
        wobble: wob,
        spawn: now,
        life: PARTICLE_LIFE_TICKS,
        color: EXHAUST_COLOR,
    }
}

/// The integrator feeds the heat model exactly: on a tick whose only
/// intent is fire, landing a shot leaves decayed heat plus the per-shot
/// amount, and a tick without a shot leaves decayed heat alone — so the
/// heat laws (sustained fire must overheat, idling must cool back under
/// the release threshold) apply verbatim to a firing ship.
pub proof fn lemma_step_heat(s: Ship, c: ShipControl, now: int, width: int, height: int)
    requires
        s.wf(),
        !c.thrust_forward,
        !c.thrust_aft,
        !c.thrust_left,
        !c.thrust_right,
        !c.rotate_left,
        !c.rotate_right,
    ensures
        s.spec_fires(c, now) ==> s.spec_step(c, now, width, height).heat == spec_heat_decay(
            s.heat as int,
        ) + FIRE_HEAT,
        !s.spec_fires(c, now) ==> s.spec_step(c, now, width, height).heat == spec_heat_decay(
            s.heat as int,
        ),
{
    crate::heat::lemma_decay_nonneg(s.heat as int);
}

} // verus!
