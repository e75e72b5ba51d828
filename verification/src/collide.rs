//! The collision and resolution engine. Once per tick it examines the full
//! live set pairwise, in a fixed priority order: an asteroid that reaches a
//! ship is done for the tick (the ship takes damage and the asteroid is
//! destroyed-and-split on the ship's velocity); then each live bullet may
//! strike the first ship it overlaps, handing over momentum and angular
//! momentum; then each surviving asteroid may consume the first bullet
//! still free. Positions never change during resolution, so every hit test
//! reads the tick-start snapshot; impulses are likewise accumulated against
//! snapshot velocities.

use vstd::prelude::*;
use vstd::pervasive::VecAdditionalExecFns;
use crate::vec2::{Vec2, dist_sq_int, dist_sq};
use crate::num::{div_trunc, spec_clamp, div_i64, mul_div_i64, clamp_i64, abs_int};
use crate::ship::Ship;
use crate::bullet::Bullet;
use crate::asteroid::Asteroid;
use crate::params::{VEL_MAX, ROT_VEL_MAX};
use vstd::arithmetic::div_mod::*;

verus! {

/// An asteroid touches a ship when their centers are closer than the
/// asteroid's size plus a third of the ship's radius. A destroyed asteroid
/// tests nothing further.
pub open spec fn spec_ast_hits_ship(a: Asteroid, s: Ship) -> bool {
    let thr = a.size + s.radius / 3;
    !a.collided && dist_sq_int(a.pos, s.pos) < thr * thr
}

/// A live bullet strikes a ship other than its owner when it is within the
/// ship's radius.
pub open spec fn spec_bullet_hits_ship(b: Bullet, s: Ship) -> bool {
    !b.collided && b.owner != s.id && dist_sq_int(b.pos, s.pos) < s.radius * s.radius
}

/// An asteroid reaches a bullet when the bullet is within its size.
pub open spec fn spec_ast_hits_bullet(a: Asteroid, b: Bullet) -> bool {
    dist_sq_int(a.pos, b.pos) < a.size * a.size
}

/// The first ship, by index from `i`, that the asteroid reaches.
pub open spec fn spec_first_ship_hit_ast(ships: Seq<Ship>, a: Asteroid, i: int) -> Option<int>
    decreases ships.len() - i,
{
    if i < 0 || i >= ships.len() {
        None
    } else if spec_ast_hits_ship(a, ships[i]) {
        Some(i)
    } else {
        spec_first_ship_hit_ast(ships, a, i + 1)
    }
}

/// The first ship, by index from `i`, that the bullet strikes.
pub open spec fn spec_first_ship_hit_bullet(ships: Seq<Ship>, b: Bullet, i: int) -> Option<int>
    decreases ships.len() - i,
{
    if i < 0 || i >= ships.len() {
        None
    } else if spec_bullet_hits_ship(b, ships[i]) {
        Some(i)
    } else {
        spec_first_ship_hit_bullet(ships, b, i + 1)
    }
}

/// How many asteroids, from index `i` on, hit ship `j` first of all ships.
pub open spec fn spec_ast_damage(ships: Seq<Ship>, asts: Seq<Asteroid>, j: int, i: int) -> int
    decreases asts.len() - i,
{
    if i < 0 || i >= asts.len() {
        0
    } else {
        (if spec_first_ship_hit_ast(ships, asts[i], 0) == Some(j) {
            1int
        } else {
            0int
        }) + spec_ast_damage(ships, asts, j, i + 1)
    }
}

/// How many bullets, from index `i` on, strike ship `j` first of all ships.
pub open spec fn spec_bullet_damage(ships: Seq<Ship>, bullets: Seq<Bullet>, j: int, i: int) -> int
    decreases bullets.len() - i,
{
    if i < 0 || i >= bullets.len() {
        0
    } else {
        (if spec_first_ship_hit_bullet(ships, bullets[i], 0) == Some(j) {
            1int
        } else {
            0int
        }) + spec_bullet_damage(ships, bullets, j, i + 1)
    }
}

/// The momentum a bullet hands a ship: the relative velocity scaled by the
/// mass ratio, and an angular kick from the cross product of the offset
/// and the relative velocity, both against the tick-start snapshot.
///
/// The linear kick is deliberately the vector form of the elastic
/// transfer — each component of the relative velocity scaled by the mass
/// ratio — so the push lies along the impact line. Folding the scalar
/// product of offset and relative velocity into both components instead
/// would tie the push to the frame axes; only the angular kick uses that
/// scalar, as a cross product properly should.
pub open spec fn spec_momentum(s: Ship, b: Bullet) -> (int, int, int) {
    let dvx = b.vel.x - s.vel.x;
    let dvy = b.vel.y - s.vel.y;
    let ix = div_trunc(dvx * b.mass, s.mass as int);
    let iy = div_trunc(dvy * b.mass, s.mass as int);
    let perp = (b.pos.x - s.pos.x) * dvy - (b.pos.y - s.pos.y) * dvx;
    let ang = div_trunc(div_trunc(perp * b.mass, s.mass as int), 1000);
    (ix, iy, ang)
}

/// Fold the impulses of every bullet from index `i` on that strikes ship
/// `j`, starting from the accumulated velocity and spin given; each step is
/// capped at the velocity and spin limits.
pub open spec fn spec_apply_impulses(
    snap: Ship,
    ships: Seq<Ship>,
    bullets: Seq<Bullet>,
    j: int,
    i: int,
    vel: Vec2,
    rv: i64,
) -> (Vec2, i64)
    decreases bullets.len() - i,
{
    if i < 0 || i >= bullets.len() {
        (vel, rv)
    } else if spec_first_ship_hit_bullet(ships, bullets[i], 0) == Some(j) {
        let m = spec_momentum(snap, bullets[i]);
        spec_apply_impulses(
            snap,
            ships,
            bullets,
            j,
            i + 1,
            Vec2 {
                x: spec_clamp(vel.x + m.0, -VEL_MAX as int, VEL_MAX as int) as i64,
                y: spec_clamp(vel.y + m.1, -VEL_MAX as int, VEL_MAX as int) as i64,
            },
            spec_clamp(rv + m.2, -ROT_VEL_MAX as int, ROT_VEL_MAX as int) as i64,
        )
    } else {
        spec_apply_impulses(snap, ships, bullets, j, i + 1, vel, rv)
    }
}

/// Ship `j` after resolution: down one health per asteroid and per bullet
/// that reached it first, with all bullet impulses folded into its velocity
/// and spin; everything else untouched.
pub open spec fn spec_resolved_ship(
    ships: Seq<Ship>,
    bullets: Seq<Bullet>,
    asts: Seq<Asteroid>,
    j: int,
) -> Ship {
    let s = ships[j];
    let vr = spec_apply_impulses(s, ships, bullets, j, 0, s.vel, s.rot_vel);
    Ship {
        health: (s.health - spec_ast_damage(ships, asts, j, 0) - spec_bullet_damage(
            ships,
            bullets,
            j,
            0,
        )) as i64,
        vel: vr.0,
        rot_vel: vr.1,
        ..s
    }
}

/// Which bullets are spoken for before asteroids look: already collided, or
/// striking some ship this tick.
pub open spec fn spec_consumed0(ships: Seq<Ship>, bullets: Seq<Bullet>) -> Seq<bool> {
    Seq::new(
        bullets.len(),
        |k: int| bullets[k].collided || spec_first_ship_hit_bullet(ships, bullets[k], 0) is Some,
    )
}

/// The first bullet, by index from `k`, not yet spoken for and within the
/// asteroid's reach.
pub open spec fn spec_first_free_bullet(
    bullets: Seq<Bullet>,
    consumed: Seq<bool>,
    a: Asteroid,
    k: int,
) -> Option<int>
    decreases bullets.len() - k,
{
    if k < 0 || k >= bullets.len() {
        None
    } else if !consumed[k] && spec_ast_hits_bullet(a, bullets[k]) {
        Some(k)
    } else {
        spec_first_free_bullet(bullets, consumed, a, k + 1)
    }
}

/// An asteroid looks for a bullet only if no ship already destroyed it.
pub open spec fn spec_c_eligible(ships: Seq<Ship>, a: Asteroid) -> bool {
    !a.collided && spec_first_ship_hit_ast(ships, a, 0) is None
}

/// The spoken-for flags after the first `i` asteroids took their pick, each
/// consuming at most the first free bullet in its reach.
pub open spec fn spec_c_consumed(
    ships: Seq<Ship>,
    bullets: Seq<Bullet>,
    asts: Seq<Asteroid>,
    i: int,
) -> Seq<bool>
    decreases i,
{
    if i <= 0 {
        spec_consumed0(ships, bullets)
    } else {
        let prev = spec_c_consumed(ships, bullets, asts, i - 1);
        if spec_c_eligible(ships, asts[i - 1]) {
            match spec_first_free_bullet(bullets, prev, asts[i - 1], 0) {
                Some(k) => prev.update(k, true),
                None => prev,
            }
        } else {
            prev
        }
    }
}

/// The bullet asteroid `i` consumes, if any.
pub open spec fn spec_c_hit(
    ships: Seq<Ship>,
    bullets: Seq<Bullet>,
    asts: Seq<Asteroid>,
    i: int,
) -> Option<int> {
    if spec_c_eligible(ships, asts[i]) {
        spec_first_free_bullet(bullets, spec_c_consumed(ships, bullets, asts, i), asts[i], 0)
    } else {
        None
    }
}

/// Asteroid `i` after resolution: destroyed by the first ship it reached
/// (impact: that ship's velocity), else by the bullet it consumed (impact:
/// that bullet's velocity), else untouched.
pub open spec fn spec_resolved_asteroid(
    ships: Seq<Ship>,
    bullets: Seq<Bullet>,
    asts: Seq<Asteroid>,
    i: int,
) -> Asteroid {
    let a = asts[i];
    match spec_first_ship_hit_ast(ships, a, 0) {
        Some(j) => Asteroid { collided: true, impact: ships[j].vel, ..a },
        None => if !a.collided {
            match spec_c_hit(ships, bullets, asts, i) {
                Some(k) => Asteroid { collided: true, impact: bullets[k].vel, ..a },
                None => a,
            }
        } else {
            a
        },
    }
}

/// Bullet `k` after resolution: marked collided if it was spoken for by a
/// ship strike or consumed by an asteroid; otherwise untouched.
pub open spec fn spec_resolved_bullet(
    ships: Seq<Ship>,
    bullets: Seq<Bullet>,
    asts: Seq<Asteroid>,
    k: int,
) -> Bullet {
    Bullet { collided: spec_c_consumed(ships, bullets, asts, asts.len() as int)[k], ..bullets[k] }
}

fn ast_hits_ship(a: &Asteroid, s: &Ship) -> (r: bool)
    requires
        a.wf(),
        s.wf(),
    ensures
        r == spec_ast_hits_ship(*a, *s),
{
    if a.collided {
        return false;
    }
    let d: u64 = dist_sq(a.pos, s.pos);
    proof {
        lemma_div_pos_is_pos(s.radius as int, 3);
        lemma_div_is_ordered(s.radius as int, 100000, 3);
    }
    let thr: i64 = a.size + div_i64(s.radius, 3);
    proof {
        assert(0 < thr * thr <= 60000000000) by (nonlinear_arith)
            requires
                0 < thr <= 240000,
        ;
    }
    d < (thr * thr) as u64
}

fn bullet_hits_ship(b: &Bullet, s: &Ship) -> (r: bool)
    requires
        b.wf(),
        s.wf(),
    ensures
        r == spec_bullet_hits_ship(*b, *s),
{
    if b.collided || b.owner == s.id {
        return false;
    }
    let d: u64 = dist_sq(b.pos, s.pos);
    proof {
        assert(0 < s.radius * s.radius <= 10000000000) by (nonlinear_arith)
            requires
                0 < s.radius <= 100000,
        ;
    }
    d < (s.radius * s.radius) as u64
}

fn ast_hits_bullet(a: &Asteroid, b: &Bullet) -> (r: bool)
    requires
        a.wf(),
        b.wf(),
    ensures
        r == spec_ast_hits_bullet(*a, *b),
{
    let d: u64 = dist_sq(a.pos, b.pos);
    proof {
        assert(0 < a.size * a.size <= 40000000000) by (nonlinear_arith)
            requires
                0 < a.size <= 200000,
        ;
    }
    d < (a.size * a.size) as u64
}

fn first_ship_hit_ast(ships: &Vec<Ship>, a: &Asteroid) -> (r: Option<usize>)
    requires
        forall|j: int| 0 <= j < ships@.len() ==> (#[trigger] ships@[j]).wf(),
        a.wf(),
    ensures
        r is Some ==> 0 <= r->0 < ships@.len() && spec_first_ship_hit_ast(ships@, *a, 0) == Some(
            r->0 as int,
        ),
        r is None ==> spec_first_ship_hit_ast(ships@, *a, 0) is None,
{
    let n: usize = ships.len();
    let mut i: usize = 0;
    while i < n
        invariant
            0 <= i <= n,
            n == ships@.len(),
            forall|j: int| 0 <= j < ships@.len() ==> (#[trigger] ships@[j]).wf(),
            a.wf(),
            spec_first_ship_hit_ast(ships@, *a, 0) == spec_first_ship_hit_ast(
                ships@,
                *a,
                i as int,
            ),
        decreases n - i,
    {
        if ast_hits_ship(a, &ships[i]) {
            return Some(i);
        }
        i = i + 1;
    }
    None
}

fn first_ship_hit_bullet(ships: &Vec<Ship>, b: &Bullet) -> (r: Option<usize>)
    requires
        forall|j: int| 0 <= j < ships@.len() ==> (#[trigger] ships@[j]).wf(),
        b.wf(),
    ensures
        r is Some ==> 0 <= r->0 < ships@.len() && spec_first_ship_hit_bullet(ships@, *b, 0)
            == Some(r->0 as int),
        r is None ==> spec_first_ship_hit_bullet(ships@, *b, 0) is None,
{
    let n: usize = ships.len();
    let mut i: usize = 0;
    while i < n
        invariant
            0 <= i <= n,
            n == ships@.len(),
            forall|j: int| 0 <= j < ships@.len() ==> (#[trigger] ships@[j]).wf(),
            b.wf(),
            spec_first_ship_hit_bullet(ships@, *b, 0) == spec_first_ship_hit_bullet(
                ships@,
                *b,
                i as int,
            ),
        decreases n - i,
    {
        if bullet_hits_ship(b, &ships[i]) {
            return Some(i);
        }
        i = i + 1;
    }
    None
}

fn first_free_bullet(bullets: &Vec<Bullet>, consumed: &Vec<bool>, a: &Asteroid) -> (r: Option<
    usize,
>)
    requires
        forall|k: int| 0 <= k < bullets@.len() ==> (#[trigger] bullets@[k]).wf(),
        consumed@.len() == bullets@.len(),
        a.wf(),
    ensures
        r is Some ==> 0 <= r->0 < bullets@.len() && spec_first_free_bullet(
            bullets@,
            consumed@,
            *a,
            0,
        ) == Some(r->0 as int),
        r is None ==> spec_first_free_bullet(bullets@, consumed@, *a, 0) is None,
{
    let n: usize = bullets.len();
    let mut k: usize = 0;
    while k < n
        invariant
            0 <= k <= n,
            n == bullets@.len(),
            consumed@.len() == bullets@.len(),
            forall|k2: int| 0 <= k2 < bullets@.len() ==> (#[trigger] bullets@[k2]).wf(),
            a.wf(),
            spec_first_free_bullet(bullets@, consumed@, *a, 0) == spec_first_free_bullet(
                bullets@,
                consumed@,
                *a,
                k as int,
            ),
        decreases n - k,
    {
        if !consumed[k] && ast_hits_bullet(a, &bullets[k]) {
            return Some(k);
        }
        k = k + 1;
    }
    None
}

/// The momentum a bullet hands a ship, executable.
fn momentum(s: &Ship, b: &Bullet) -> (r: (i64, i64, i64))
    requires
        s.wf(),
        b.wf(),
    ensures
        (r.0 as int, r.1 as int, r.2 as int) == spec_momentum(*s, *b),
        -1100000000000 <= r.0 <= 1100000000000,
        -1100000000000 <= r.1 <= 1100000000000,
        -4400000000000000 <= r.2 <= 4400000000000000,
{
    let dvx: i64 = b.vel.x - s.vel.x;
    let dvy: i64 = b.vel.y - s.vel.y;
    proof {
        assert(abs_int(dvx * b.mass) <= 1100000 * 1000000000int && abs_int(dvy * b.mass)
            <= 1100000 * 1000000000int) by (nonlinear_arith)
            requires
                -1100000 <= dvx <= 1100000,
                -1100000 <= dvy <= 1100000,
                0 < b.mass <= 1000000000,
        ;
        lemma_div_is_ordered(abs_int(dvx * b.mass), 1100000 * 1000000000int, s.mass as int);
        lemma_div_is_ordered(abs_int(dvy * b.mass), 1100000 * 1000000000int, s.mass as int);
        lemma_div_pos_is_pos(abs_int(dvx * b.mass), s.mass as int);
        lemma_div_pos_is_pos(abs_int(dvy * b.mass), s.mass as int);
        lemma_div_is_ordered_by_denominator(1100000 * 1000000000int, 1000, s.mass as int);
        crate::num::lemma_div_trunc_bounds(dvx * b.mass, 1100000 * 1000000000int, s.mass as int);
        crate::num::lemma_div_trunc_bounds(dvy * b.mass, 1100000 * 1000000000int, s.mass as int);
    }
    let ix: i64 = mul_div_i64(dvx, b.mass, s.mass as u64);
    let iy: i64 = mul_div_i64(dvy, b.mass, s.mass as u64);
    let dpx: i64 = b.pos.x - s.pos.x;
    let dpy: i64 = b.pos.y - s.pos.y;
    proof {
        assert(abs_int(dpx * dvy) <= 2200000000000 && abs_int(dpy * dvx) <= 2200000000000)
            by (nonlinear_arith)
            requires
                -2000000 <= dpx <= 2000000,
                -2000000 <= dpy <= 2000000,
                -1100000 <= dvx <= 1100000,
                -1100000 <= dvy <= 1100000,
        ;
    }
    let perp: i64 = dpx * dvy - dpy * dvx;
    proof {
        assert(abs_int(perp * b.mass) <= 4400000000000 * 1000000000int) by (nonlinear_arith)
            requires
                -4400000000000 <= perp <= 4400000000000,
                0 < b.mass <= 1000000000,
        ;
        lemma_div_is_ordered(abs_int(perp * b.mass), 4400000000000 * 1000000000int, s.mass as int);
        lemma_div_pos_is_pos(abs_int(perp * b.mass), s.mass as int);
        lemma_div_is_ordered_by_denominator(4400000000000 * 1000000000int, 1000, s.mass as int);
        crate::num::lemma_div_trunc_bounds(perp * b.mass, 4400000000000 * 1000000000int, s.mass as int);
    }
    let pm: i64 = mul_div_i64(perp, b.mass, s.mass as u64);
    proof {
        crate::num::lemma_div_trunc_bounds(pm as int, 4400000000000000000int, 1000);
    }
    let ang: i64 = div_i64(pm, 1000);
    (ix, iy, ang)
}

/// Run one full resolution pass over the live set and hand back the
/// resolved ships, bullets and asteroids, each element exactly as the
/// resolution specs above dictate.
pub fn resolve(ships: Vec<Ship>, bullets: Vec<Bullet>, asteroids: Vec<Asteroid>) -> (r: (
    Vec<Ship>,
    Vec<Bullet>,
    Vec<Asteroid>,
))
    requires
        forall|j: int| 0 <= j < ships@.len() ==> (#[trigger] ships@[j]).wf()
            && ships@[j].health >= 0,
        forall|k: int| 0 <= k < bullets@.len() ==> (#[trigger] bullets@[k]).wf(),
        forall|i: int| 0 <= i < asteroids@.len() ==> (#[trigger] asteroids@[i]).wf(),
        ships@.len() <= 10000,
        bullets@.len() <= 10000,
        asteroids@.len() <= 10000,
    ensures
        r.0@.len() == ships@.len(),
        r.1@.len() == bullets@.len(),
        r.2@.len() == asteroids@.len(),
        forall|j: int| 0 <= j < ships@.len() ==> #[trigger] r.0@[j] == spec_resolved_ship(
            ships@,
            bullets@,
            asteroids@,
            j,
        ),
        forall|k: int| 0 <= k < bullets@.len() ==> #[trigger] r.1@[k] == spec_resolved_bullet(
            ships@,
            bullets@,
            asteroids@,
            k,
        ),
        forall|i: int| 0 <= i < asteroids@.len() ==> #[trigger] r.2@[i] == spec_resolved_asteroid(
            ships@,
            bullets@,
            asteroids@,
            i,
        ),
        forall|j: int| 0 <= j < ships@.len() ==> (#[trigger] r.0@[j]).wf() && r.0@[j].health
            >= -20000,
        forall|k: int| 0 <= k < bullets@.len() ==> (#[trigger] r.1@[k]).wf(),
        forall|i: int| 0 <= i < asteroids@.len() ==> (#[trigger] r.2@[i]).wf(),
{
    let ns: usize = ships.len();
    let nb: usize = bullets.len();
    let na: usize = asteroids.len();
    // Damage and impulses, per ship, all against the snapshot.
    let mut new_ships: Vec<Ship> = Vec::new();
    let mut j: usize = 0;
    while j < ns
        invariant
            0 <= j <= ns,
            ns == ships@.len(),
            nb == bullets@.len(),
            na == asteroids@.len(),
            ships@.len() <= 10000,
            bullets@.len() <= 10000,
            asteroids@.len() <= 10000,
            forall|j2: int| 0 <= j2 < ships@.len() ==> (#[trigger] ships@[j2]).wf()
                && ships@[j2].health >= 0,
            forall|k: int| 0 <= k < bullets@.len() ==> (#[trigger] bullets@[k]).wf(),
            forall|i: int| 0 <= i < asteroids@.len() ==> (#[trigger] asteroids@[i]).wf(),
            new_ships@.len() == j,
            forall|j2: int| 0 <= j2 < j ==> #[trigger] new_ships@[j2] == spec_resolved_ship(
                ships@,
                bullets@,
                asteroids@,
                j2,
            ),
            forall|j2: int| 0 <= j2 < j ==> (#[trigger] new_ships@[j2]).wf()
                && new_ships@[j2].health >= -20000,
        decreases ns - j,
    {
        let s: Ship = ships[j];
        // Count the asteroids that reach this ship first.
        let mut admg: i64 = 0;
        let mut i: usize = 0;
        while i < na
            invariant
                0 <= i <= na,
                ns == ships@.len(),
                na == asteroids@.len(),
                asteroids@.len() <= 10000,
                j < ships@.len(),
                forall|j2: int| 0 <= j2 < ships@.len() ==> (#[trigger] ships@[j2]).wf(),
                forall|i2: int| 0 <= i2 < asteroids@.len() ==> (#[trigger] asteroids@[i2]).wf(),
                0 <= admg <= i,
                spec_ast_damage(ships@, asteroids@, j as int, 0) == admg + spec_ast_damage(
                    ships@,
                    asteroids@,
                    j as int,
                    i as int,
                ),
            decreases na - i,
        {
            let h = first_ship_hit_ast(&ships, &asteroids[i]);
            match h {
                Some(hj) => {
                    if hj == j {
                        admg = admg + 1;
                    }
                },
                None => {},
            }
            i = i + 1;
        }
        // Fold in each striking bullet: one damage and one impulse apiece.
        let mut bdmg: i64 = 0;
        let mut vel: Vec2 = s.vel;
        let mut rv: i64 = s.rot_vel;
        let mut k: usize = 0;
        while k < nb
            invariant
                0 <= k <= nb,
                ns == ships@.len(),
                nb == bullets@.len(),
                bullets@.len() <= 10000,
                j < ships@.len(),
                s == ships@[j as int],
                s.wf(),
                forall|j2: int| 0 <= j2 < ships@.len() ==> (#[trigger] ships@[j2]).wf(),
                forall|k2: int| 0 <= k2 < bullets@.len() ==> (#[trigger] bullets@[k2]).wf(),
                0 <= bdmg <= k,
                -VEL_MAX <= vel.x <= VEL_MAX,
                -VEL_MAX <= vel.y <= VEL_MAX,
                -ROT_VEL_MAX <= rv <= ROT_VEL_MAX,
                spec_bullet_damage(ships@, bullets@, j as int, 0) == bdmg + spec_bullet_damage(
                    ships@,
                    bullets@,
                    j as int,
                    k as int,
                ),
                spec_apply_impulses(s, ships@, bullets@, j as int, 0, s.vel, s.rot_vel)
                    == spec_apply_impulses(s, ships@, bullets@, j as int, k as int, vel, rv),
            decreases nb - k,
        {
            let h = first_ship_hit_bullet(&ships, &bullets[k]);
            match h {
                Some(hj) => {
                    if hj == j {
                        bdmg = bdmg + 1;
                        let m = momentum(&s, &bullets[k]);
                        vel = Vec2 {
                            x: clamp_i64(vel.x + m.0, -VEL_MAX, VEL_MAX),
                            y: clamp_i64(vel.y + m.1, -VEL_MAX, VEL_MAX),
                        };
                        rv = clamp_i64(rv + m.2, -ROT_VEL_MAX, ROT_VEL_MAX);
                    }
                },
                None => {},
            }
            k = k + 1;
        }
        new_ships.push(Ship { health: s.health - admg - bdmg, vel, rot_vel: rv, ..s });
        j = j + 1;
    }
    // Which bullets are already spoken for, before asteroids look.
    let mut consumed: Vec<bool> = Vec::new();
    let mut k: usize = 0;
    while k < nb
        invariant
            0 <= k <= nb,
            ns == ships@.len(),
            nb == bullets@.len(),
            forall|j2: int| 0 <= j2 < ships@.len() ==> (#[trigger] ships@[j2]).wf(),
            forall|k2: int| 0 <= k2 < bullets@.len() ==> (#[trigger] bullets@[k2]).wf(),
            consumed@.len() == k,
            forall|k2: int| 0 <= k2 < k ==> #[trigger] consumed@[k2] == spec_consumed0(
                ships@,
                bullets@,
            )[k2],
        decreases nb - k,
    {
        let hit = first_ship_hit_bullet(&ships, &bullets[k]);
        consumed.push(bullets[k].collided || hit.is_some());
        k = k + 1;
    }
    proof {
        assert(consumed@ =~= spec_consumed0(ships@, bullets@));
    }
    // Asteroids in order: destroyed by a ship, else consuming a free bullet.
    let mut new_asts: Vec<Asteroid> = Vec::new();
    let mut i: usize = 0;
    while i < na
        invariant
            0 <= i <= na,
            ns == ships@.len(),
            nb == bullets@.len(),
            na == asteroids@.len(),
            forall|j2: int| 0 <= j2 < ships@.len() ==> (#[trigger] ships@[j2]).wf(),
            forall|k2: int| 0 <= k2 < bullets@.len() ==> (#[trigger] bullets@[k2]).wf(),
            forall|i2: int| 0 <= i2 < asteroids@.len() ==> (#[trigger] asteroids@[i2]).wf(),
            consumed@.len() == bullets@.len(),
            consumed@ == spec_c_consumed(ships@, bullets@, asteroids@, i as int),
            new_asts@.len() == i,
            forall|i2: int| 0 <= i2 < i ==> #[trigger] new_asts@[i2] == spec_resolved_asteroid(
                ships@,
                bullets@,
                asteroids@,
                i2,
            ),
            forall|i2: int| 0 <= i2 < i ==> (#[trigger] new_asts@[i2]).wf(),
        decreases na - i,
    {
        let a: Asteroid = asteroids[i];
        let fh = first_ship_hit_ast(&ships, &a);
        match fh {
            Some(hj) => {
                new_asts.push(Asteroid { collided: true, impact: ships[hj].vel, ..a });
            },
            None => {
                if !a.collided {
                    let fb = first_free_bullet(&bullets, &consumed, &a);
                    match fb {
                        Some(bk) => {
                            consumed.set(bk, true);
                            new_asts.push(
                                Asteroid { collided: true, impact: bullets[bk].vel, ..a },
                            );
                        },
                        None => {
                            new_asts.push(a);
                        },
                    }
                } else {
                    new_asts.push(a);
                }
            },
        }
        i = i + 1;
    }
    // Stamp the final spoken-for flags onto the bullets.
    let mut new_bullets: Vec<Bullet> = Vec::new();
    let mut k2: usize = 0;
    while k2 < nb
        invariant
            0 <= k2 <= nb,
            nb == bullets@.len(),
            na == asteroids@.len(),
            forall|k3: int| 0 <= k3 < bullets@.len() ==> (#[trigger] bullets@[k3]).wf(),
            consumed@.len() == bullets@.len(),
            consumed@ == spec_c_consumed(ships@, bullets@, asteroids@, na as int),
            new_bullets@.len() == k2,
            forall|k3: int| 0 <= k3 < k2 ==> #[trigger] new_bullets@[k3] == spec_resolved_bullet(
                ships@,
                bullets@,
                asteroids@,
                k3,
            ),
            forall|k3: int| 0 <= k3 < k2 ==> (#[trigger] new_bullets@[k3]).wf(),
        decreases nb - k2,
    {
        new_bullets.push(Bullet { collided: consumed[k2], ..bullets[k2] });
        k2 = k2 + 1;
    }
    (new_ships, new_bullets, new_asts)
}

} // verus!
