//! Simulation core for a 2D space-combat arena on a torus.
//!
//! Ships, bullets, asteroids and exhaust particles move in a wraparound
//! arena. All physical quantities are fixed-point integers: positions and
//! velocities in milli-units, angles in millidegrees, time in whole ticks.
//! Every state transition is specified by a contract and verified; the only
//! unverified code is the thin wrapper that draws random numbers. The
//! arena carries a fixed capacity for each entity kind, stated openly in
//! the lifecycle contracts: entities spawned beyond a capacity are quietly
//! not admitted that tick.

pub mod num;
pub mod params;
pub mod heat;
pub mod trig;
pub mod vec2;
pub mod arena;
pub mod control;
mod rng;
pub mod bullet;
pub mod particle;
pub mod asteroid;
pub mod ship;
pub mod intercept;
pub mod collide;
pub mod game;
