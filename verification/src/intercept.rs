//! The ballistic intercept solver: given own state, a target's relative
//! position and velocity and the projectile speed, solve the quadratic
//! `|rel_pos + rel_vel t|^2 = (speed t)^2` for the earliest reachable
//! intercept and report the signed lead angle from own heading to the
//! predicted impact point. Degenerate geometry — negative discriminant, no
//! positive root, an intercept further out than a bullet can fly, a
//! predicted point on top of the shooter — reports "no shot" rather than
//! failing.

use vstd::prelude::*;
use crate::vec2::{Vec2, dot_int, len_sq_int};
use crate::num::{div_trunc_signed, div_signed_i64, spec_isqrt, isqrt_u128, abs_int};
use crate::trig::{spec_atan2, atan2_mdeg, spec_norm_signed, norm_signed_mdeg};
use crate::ship::Ship;
use crate::control::ShipControl;
use crate::params::{ARENA_LIMIT, INTERCEPT_MAX_MILLITICKS};

verus! {

/// Time to the earliest acceptable intercept, in milli-ticks: the smaller
/// positive root of `a t^2 + b t + c = 0` (the larger where only it is
/// positive), rejected when the discriminant is negative, when no root is
/// positive, or when the root exceeds the solver's horizon.
pub open spec fn spec_intercept_time(rel_pos: Vec2, rel_vel: Vec2, speed: int) -> Option<int> {
    let a = len_sq_int(rel_vel) - speed * speed;
    let b = 2 * dot_int(rel_vel, rel_pos);
    let c = len_sq_int(rel_pos);
    if a == 0 {
        if b != 0 {
            let t = div_trunc_signed(-c * 1000, b);
            if 0 < t <= INTERCEPT_MAX_MILLITICKS {
                Some(t)
            } else {
                None
            }
        } else {
            None
        }
    } else {
        let disc = b * b - 4 * a * c;
        if disc < 0 {
            None
        } else {
            let sq = spec_isqrt(disc);
            let t1 = div_trunc_signed((-b - sq) * 1000, 2 * a);
            let t2 = div_trunc_signed((-b + sq) * 1000, 2 * a);
            let lo = if t1 <= t2 {
                t1
            } else {
                t2
            };
            let hi = if t1 <= t2 {
                t2
            } else {
                t1
            };
            let pick = if lo > 0 {
                lo
            } else {
                hi
            };
            if 0 < pick <= INTERCEPT_MAX_MILLITICKS {
                Some(pick)
            } else {
                None
            }
        }
    }
}

/// The full solver: predicted impact point at the intercept time, then the
/// signed bearing from own heading to it, in millidegrees, positive
/// counterclockwise.
pub open spec fn spec_lead_angle(own: Ship, target_pos: Vec2, target_vel: Vec2, speed: int) -> Option<
    int,
> {
    let rel_pos = Vec2 { x: (target_pos.x - own.pos.x) as i64, y: (target_pos.y - own.pos.y) as i64 };
    let rel_vel = Vec2 { x: (target_vel.x - own.vel.x) as i64, y: (target_vel.y - own.vel.y) as i64 };
    match spec_intercept_time(rel_pos, rel_vel, speed) {
        Some(t) => {
            let px = rel_pos.x * 1000 + rel_vel.x * t;
            let py = rel_pos.y * 1000 + rel_vel.y * t;
            if px == 0 && py == 0 {
                None
            } else {
                Some(spec_norm_signed(own.rot - spec_atan2(py, px)))
            }
        },
        None => None,
    }
}

/// Solve for the intercept time in milli-ticks.
pub fn intercept_time(rel_pos: Vec2, rel_vel: Vec2, speed: i64) -> (r: Option<i64>)
    requires
        -4000000 <= rel_pos.x <= 4000000,
        -4000000 <= rel_pos.y <= 4000000,
        -2000000 <= rel_vel.x <= 2000000,
        -2000000 <= rel_vel.y <= 2000000,
        1 <= speed <= 100000,
    ensures
        (r is Some) == (spec_intercept_time(rel_pos, rel_vel, speed as int) is Some),
        r is Some ==> r->0 == spec_intercept_time(rel_pos, rel_vel, speed as int)->0,
        r is Some ==> 0 < r->0 <= INTERCEPT_MAX_MILLITICKS,
{
    proof {
        assert(0 <= rel_vel.x * rel_vel.x <= 4000000000000
            && 0 <= rel_vel.y * rel_vel.y <= 4000000000000) by (nonlinear_arith)
            requires
                -2000000 <= rel_vel.x <= 2000000,
                -2000000 <= rel_vel.y <= 2000000,
        ;
        assert(0 <= rel_pos.x * rel_pos.x <= 16000000000000
            && 0 <= rel_pos.y * rel_pos.y <= 16000000000000) by (nonlinear_arith)
            requires
                -4000000 <= rel_pos.x <= 4000000,
                -4000000 <= rel_pos.y <= 4000000,
        ;
        assert(0 < speed * speed <= 10000000000) by (nonlinear_arith)
            requires
                1 <= speed <= 100000,
        ;
        assert(abs_int(rel_vel.x * rel_pos.x) <= 8000000000000
            && abs_int(rel_vel.y * rel_pos.y) <= 8000000000000) by (nonlinear_arith)
            requires
                -2000000 <= rel_vel.x <= 2000000,
                -2000000 <= rel_vel.y <= 2000000,
                -4000000 <= rel_pos.x <= 4000000,
                -4000000 <= rel_pos.y <= 4000000,
        ;
    }
    let a: i64 = rel_vel.x * rel_vel.x + rel_vel.y * rel_vel.y - speed * speed;
    let b: i64 = 2 * (rel_vel.x * rel_pos.x + rel_vel.y * rel_pos.y);
    let c: i64 = rel_pos.x * rel_pos.x + rel_pos.y * rel_pos.y;
    if a == 0 {
        if b != 0 {
            let t: i64 = div_signed_i64(-c * 1000, b);
            if 0 < t && t <= INTERCEPT_MAX_MILLITICKS {
                Some(t)
            } else {
                None
            }
        } else {
            None
        }
    } else {
        proof {
            assert(0 <= (b as int) * (b as int) <= 1100000000000000000000000000) by (nonlinear_arith)
                requires
                    -32000000000000 <= b <= 32000000000000,
            ;
            assert(abs_int(4 * (a as int) * (c as int)) <= 1100000000000000000000000000)
                by (nonlinear_arith)
                requires
                    -8000000000000 <= a <= 8000000000000,
                    0 <= c <= 32000000000000,
            ;
        }
        let disc: i128 = (b as i128) * (b as i128) - 4 * (a as i128) * (c as i128);
        if disc < 0 {
            None
        } else {
            let sq64: u64 = isqrt_u128(disc as u128);
            proof {
                if sq64 >= 50000000000000 {
                    assert((sq64 as int) * (sq64 as int) > 2200000000000000000000000000)
                        by (nonlinear_arith)
                        requires
                            sq64 >= 50000000000000u64,
                    ;
                }
            }
            let sq: i64 = sq64 as i64;
            let t1: i64 = div_signed_i64((-b - sq) * 1000, 2 * a);
            let t2: i64 = div_signed_i64((-b + sq) * 1000, 2 * a);
            let lo: i64 = if t1 <= t2 {
                t1
            } else {
                t2
            };
            let hi: i64 = if t1 <= t2 {
                t2
            } else {
                t1
            };
            let pick: i64 = if lo > 0 {
                lo
            } else {
                hi
            };
            if 0 < pick && pick <= INTERCEPT_MAX_MILLITICKS {
                Some(pick)
            } else {
                None
            }
        }
    }
}

/// Compute the lead angle to fire at a moving target, or report that no
/// shot exists. Pure in its inputs and testable with literal vectors.
pub fn target(own: &Ship, target_pos: Vec2, target_vel: Vec2, speed: i64) -> (r: Option<i64>)
    requires
        own.wf(),
        0 <= target_pos.x <= ARENA_LIMIT,
        0 <= target_pos.y <= ARENA_LIMIT,
        -1000000 <= target_vel.x <= 1000000,
        -1000000 <= target_vel.y <= 1000000,
        1 <= speed <= 100000,
    ensures
        (r is Some) == (spec_lead_angle(*own, target_pos, target_vel, speed as int) is Some),
        r is Some ==> r->0 == spec_lead_angle(*own, target_pos, target_vel, speed as int)->0,
        r is Some ==> -180000 <= r->0 <= 180000,
{
    let rel_pos = Vec2 { x: target_pos.x - own.pos.x, y: target_pos.y - own.pos.y };
    let rel_vel = Vec2 { x: target_vel.x - own.vel.x, y: target_vel.y - own.vel.y };
    let t_opt = intercept_time(rel_pos, rel_vel, speed);
    match t_opt {
        Some(t) => {
            proof {
                assert(abs_int(rel_vel.x * t) <= 270000000000 && abs_int(rel_vel.y * t)
                    <= 270000000000) by (nonlinear_arith)
                    requires
                        -1500000 <= rel_vel.x <= 1500000,
                        -1500000 <= rel_vel.y <= 1500000,
                        0 < t <= 180000,
                ;
            }
            let px: i64 = rel_pos.x * 1000 + rel_vel.x * t;
            let py: i64 = rel_pos.y * 1000 + rel_vel.y * t;
            if px == 0 && py == 0 {
                None
            } else {
                let bearing: i64 = atan2_mdeg(py, px);
                Some(norm_signed_mdeg(own.rot - bearing))
            }
        },
        None => None,
    }
}

/// The aiming pilot: when a shot exists, turn toward the lead bearing and
/// fire once roughly lined up; with no shot, drift and hold fire. A
/// positive lead says the bearing lies clockwise of the heading, so the
/// ship turns right; a negative lead turns it left.
pub open spec fn spec_gunner(own: Ship, target_pos: Vec2, target_vel: Vec2, speed: int) -> ShipControl {
    match spec_lead_angle(own, target_pos, target_vel, speed) {
        Some(lead) => ShipControl {
            thrust_forward: false,
            thrust_aft: false,
            thrust_left: false,
            thrust_right: false,
            rotate_left: lead < -2000,
            rotate_right: lead > 2000,
            fire: -2000 <= lead <= 2000,
        },
        None => crate::control::spec_idle_control(),
    }
}

/// Compute the aiming pilot's intent for this tick.
pub fn gunner_control(own: &Ship, target_pos: Vec2, target_vel: Vec2, speed: i64) -> (r:
    ShipControl)
    requires
        own.wf(),
        0 <= target_pos.x <= ARENA_LIMIT,
        0 <= target_pos.y <= ARENA_LIMIT,
        -1000000 <= target_vel.x <= 1000000,
        -1000000 <= target_vel.y <= 1000000,
        1 <= speed <= 100000,
    ensures
        r == spec_gunner(*own, target_pos, target_vel, speed as int),
{
    match target(own, target_pos, target_vel, speed) {
        Some(lead) => ShipControl {
            thrust_forward: false,
            thrust_aft: false,
            thrust_left: false,
            thrust_right: false,
            rotate_left: lead < -2000,
            rotate_right: lead > 2000,
            fire: -2000 <= lead && lead <= 2000,
        },
        None => ShipControl::default(),
    }
}

} // verus!
