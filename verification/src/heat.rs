//! The heat accumulator and its hysteresis: every maneuver and every shot
//! add heat, heat decays multiplicatively each tick, and past the upper
//! threshold the ship is locked out until heat falls under the lower one.

use vstd::prelude::*;
use vstd::arithmetic::div_mod::*;
use crate::params::{HEAT_HIGH, HEAT_LOW, HEAT_CAP, FIRE_HEAT};

verus! {

/// One tick of multiplicative decay: heat keeps 98.5 percent of itself,
/// rounded down.
pub open spec fn spec_heat_decay(h: int) -> int
    recommends
        h >= 0,
{
    h * 985 / 1000
}

pub fn heat_decay(h: u64) -> (r: u64)
    requires
        h <= HEAT_CAP,
    ensures
        r == spec_heat_decay(h as int),
        r <= h,
{
    proof {
        lemma_div_pos_is_pos((h * 985) as int, 1000);
        lemma_multiply_divide_le((h * 985) as int, 1000, h as int);
    }
    h * 985 / 1000
}

/// The hysteresis step: cross the high threshold and the lockout engages;
/// only falling under the low threshold releases it; in between the state
/// keeps its previous value.
pub open spec fn spec_overheat_next(h: int, over: bool) -> bool {
    if h > HEAT_HIGH {
        true
    } else if h < HEAT_LOW {
        false
    } else {
        over
    }
}

pub fn overheat_next(h: u64, over: bool) -> (r: bool)
    ensures
        r == spec_overheat_next(h as int, over),
{
    if h > HEAT_HIGH {
        true
    } else if h < HEAT_LOW {
        false
    } else {
        over
    }
}

/// Heat after `n` completely idle ticks.
pub open spec fn spec_idle_heat(h: int, n: nat) -> int
    decreases n,
{
    if n == 0 {
        h
    } else {
        spec_idle_heat(spec_heat_decay(h), (n - 1) as nat)
    }
}

/// While any heat remains, one idle tick sheds at least one unit of it.
pub proof fn lemma_decay_drops(h: int)
    requires
        h >= 1,
    ensures
        0 <= spec_heat_decay(h) <= h - 1,
{
    lemma_div_pos_is_pos(985 * h, 1000);
    lemma_multiply_divide_lt(985 * h, 1000, h);
}

/// Decay never shows heat out of nothing.
pub proof fn lemma_decay_nonneg(h: int)
    requires
        h >= 0,
    ensures
        spec_heat_decay(h) >= 0,
        spec_heat_decay(h) <= h,
{
    if h >= 1 {
        lemma_decay_drops(h);
    }
}

/// Idle cooling is monotonically bounded: after `n` idle ticks heat is down
/// by at least `n`, until it reaches zero.
pub proof fn lemma_idle_cools(h: int, n: nat)
    requires
        h >= 0,
    ensures
        0 <= spec_idle_heat(h, n),
        spec_idle_heat(h, n) <= (if h - n >= 0 { h - n } else { 0 }),
    decreases n,
{
    if n > 0 {
        lemma_decay_nonneg(h);
        if h >= 1 {
            lemma_decay_drops(h);
        }
        lemma_idle_cools(spec_heat_decay(h), (n - 1) as nat);
    }
}

/// After sufficient idle ticks — at most as many as there are units of heat
/// — the accumulator is fully drained, which sits under the low threshold,
/// so the hysteresis releases and every action is enabled again.
pub proof fn lemma_cooling_reenables(h: int, over: bool)
    requires
        0 <= h <= HEAT_CAP,
    ensures
        spec_idle_heat(h, h as nat) == 0,
        !spec_overheat_next(spec_idle_heat(h, h as nat), over),
{
    lemma_idle_cools(h, h as nat);
}

/// One firing cycle under sustained fire: the tick that lands the shot
/// (decay, then the shot's heat), followed by the cooldown's worth of
/// decay-only ticks.
pub open spec fn spec_fire_cycle(h: int) -> int
    recommends
        h >= 0,
{
    spec_idle_heat(spec_heat_decay(h) + FIRE_HEAT, 5)
}

/// Heat after `n` consecutive firing cycles.
pub open spec fn spec_fire_cycles(h: int, n: nat) -> int
    decreases n,
{
    if n == 0 {
        h
    } else {
        spec_fire_cycles(spec_fire_cycle(h), (n - 1) as nat)
    }
}

/// Decay's per-tick loss is bounded while heat is moderate.
pub proof fn lemma_decay_loss(h: int)
    requires
        0 <= h <= 110000,
    ensures
        h - 1650 <= spec_heat_decay(h) <= h,
{
    lemma_fundamental_div_mod(985 * h, 1000);
    lemma_mod_bound(985 * h, 1000);
    lemma_decay_nonneg(h);
}

/// Below the overheat threshold, one firing cycle gains strictly more heat
/// from the shot than the whole cycle's decay can shed.
pub proof fn lemma_fire_cycle_gains(h: int)
    requires
        0 <= h <= HEAT_HIGH,
    ensures
        h + 100 <= spec_fire_cycle(h),
        spec_fire_cycle(h) <= HEAT_CAP,
{
    lemma_decay_loss(h);
    let h0 = spec_heat_decay(h) + FIRE_HEAT;
    assert(h - 1650 + FIRE_HEAT <= h0 <= HEAT_HIGH + FIRE_HEAT);
    let h1 = spec_heat_decay(h0);
    lemma_decay_loss(h0);
    let h2 = spec_heat_decay(h1);
    lemma_decay_loss(h1);
    let h3 = spec_heat_decay(h2);
    lemma_decay_loss(h2);
    let h4 = spec_heat_decay(h3);
    lemma_decay_loss(h3);
    let h5 = spec_heat_decay(h4);
    lemma_decay_loss(h4);
    assert(spec_idle_heat(h0, 5) == spec_idle_heat(h1, 4));
    assert(spec_idle_heat(h1, 4) == spec_idle_heat(h2, 3));
    assert(spec_idle_heat(h2, 3) == spec_idle_heat(h3, 2));
    assert(spec_idle_heat(h3, 2) == spec_idle_heat(h4, 1));
    assert(spec_idle_heat(h4, 1) == spec_idle_heat(h5, 0));
}

/// The hysteresis itself caps the heat of any ship that is not locked
/// out: leaving the hysteresis unlocked means heat did not exceed the
/// upper threshold. This is what entitles the overheating law below to
/// assume heat at or under the threshold.
pub proof fn lemma_unlocked_heat_at_most_high(h: int, over: bool)
    ensures
        !spec_overheat_next(h, over) ==> h <= HEAT_HIGH,
{
}

/// Sustained fire must overheat: from any heat level at or below the
/// threshold — which the hysteresis guarantees of every ship that is not
/// already locked out — some number of consecutive firing cycles pushes
/// heat past the overheat threshold and the lockout engages. The bridge
/// from the integrator is the ship lemma stating that a fire-only tick
/// leaves exactly decayed heat plus the per-shot amount.
pub proof fn lemma_sustained_fire_overheats(h: int)
    requires
        0 <= h <= HEAT_HIGH,
    ensures
        exists|n: nat|
            spec_fire_cycles(h, n) > HEAT_HIGH && spec_overheat_next(
                spec_fire_cycles(h, n),
                false,
            ),
    decreases HEAT_HIGH + 1 - h,
{
    lemma_fire_cycle_gains(h);
    let h1 = spec_fire_cycle(h);
    if h1 > HEAT_HIGH {
        assert(spec_fire_cycles(h, 1) == spec_fire_cycles(h1, 0));
        assert(spec_fire_cycles(h, 1) > HEAT_HIGH && spec_overheat_next(
            spec_fire_cycles(h, 1),
            false,
        ));
    } else {
        lemma_sustained_fire_overheats(h1);
        let n1 = choose|n: nat|
            spec_fire_cycles(h1, n) > HEAT_HIGH && spec_overheat_next(
                spec_fire_cycles(h1, n),
                false,
            );
        assert(spec_fire_cycles(h, n1 + 1) == spec_fire_cycles(h1, n1));
    }
}

} // verus!
