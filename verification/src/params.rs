//! Tunable constants of the simulation. Distances and speeds are in
//! milli-units (per tick where a rate), angles in millidegrees, heat in
//! milli-heat-units, time in ticks.

use vstd::prelude::*;

verus! {

/// Default arena extent.
pub const ARENA_WIDTH: i64 = 800000;

pub const ARENA_HEIGHT: i64 = 600000;

/// Largest arena either axis may have; entity invariants are stated
/// against it.
pub const ARENA_LIMIT: i64 = 2000000;

/// Muzzle speed of a bullet relative to the firing ship.
pub const SHOT_SPEED: i64 = 30000;

/// Ticks a bullet lives after spawning.
pub const SHOT_LIFE_TICKS: u64 = 90;

/// Ticks that must elapse between two shots of one cannon.
pub const COOLDOWN_TICKS: u64 = 6;

/// Ticks an exhaust particle lives.
pub const PARTICLE_LIFE_TICKS: u64 = 30;

/// Hard cap on the magnitude of any velocity component.
pub const VEL_MAX: i64 = 500000;

/// Bullets inherit ship velocity on top of muzzle speed, so their cap is
/// wider.
pub const BULLET_VEL_MAX: i64 = 600000;

/// Hard cap on the magnitude of an angular velocity, millidegrees per tick.
pub const ROT_VEL_MAX: i64 = 30000;

/// Angular velocity added per tick by an active rotate intent.
pub const ROT_DELTA: i64 = 3000;

/// Ship collision radius.
pub const SHIP_RADIUS: i64 = 1000;

pub const SHIP_MASS: i64 = 100000;

pub const BULLET_MASS: i64 = 1000;

pub const SHIP_THRUST: i64 = 10000000;

/// Per-mille thrust fractions: forward strongest, aft weaker, strafes
/// weakest.
pub const THRUST_FRAC_FORWARD: i64 = 1000;

pub const THRUST_FRAC_AFT: i64 = 500;

pub const THRUST_FRAC_STRAFE: i64 = 300;

/// Heat added by one shot.
pub const FIRE_HEAT: u64 = 10000;

/// Heat added per tick by each active thrust intent.
pub const THRUST_HEAT: u64 = 500;

/// Heat added per tick by each active rotate intent.
pub const ROTATE_HEAT: u64 = 250;

/// Above this the ship overheats and all intents are disabled.
pub const HEAT_HIGH: u64 = 100000;

/// Only below this does an overheated ship recover: a hysteresis band.
pub const HEAT_LOW: u64 = 20000;

/// Heat can never exceed this; decay dominates the largest possible
/// per-tick gain well before it.
pub const HEAT_CAP: u64 = 1000000;

/// Speed given to an asteroid fragment, drawn from this closed range.
pub const CHILD_SPEED_MIN: i64 = 1000;

pub const CHILD_SPEED_MAX: i64 = 3000;

/// Magnitude bound for a fragment's random spin.
pub const CHILD_SPIN_MAX: i64 = 2000;

/// An asteroid splits only while its side count exceeds this.
pub const MIN_SIDES: u32 = 3;

/// An intercept further away than this many milli-ticks is not worth
/// taking: about twice a bullet's lifetime.
pub const INTERCEPT_MAX_MILLITICKS: i64 = 180000;

} // verus!
