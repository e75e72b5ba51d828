//! The entity lifecycle manager: it owns the live set for the duration of
//! a tick, asks every entity for its successor state, runs the collision
//! engine over the moved set, drops the dead and expired, and appends
//! everything newly spawned — fired bullets, split fragments, exhaust —
//! so the newcomers survive into the next tick.

use vstd::prelude::*;
use crate::vec2::Vec2;
use crate::ship::{Ship, ControlSource, spawn, exhaust, spec_exhaust, spec_default_ship};
use crate::bullet::Bullet;
use crate::asteroid::Asteroid;
use crate::particle::{Particle, spec_step_some_angle};
use crate::control::{ShipControl, spec_idle_control};
use crate::collide::{spec_resolved_ship, spec_resolved_bullet, spec_resolved_asteroid, resolve};
use crate::intercept::{spec_gunner, gunner_control};
use crate::params::{
    ARENA_WIDTH, ARENA_HEIGHT, ARENA_LIMIT, SHOT_SPEED, MIN_SIDES, CHILD_SPEED_MAX,
    CHILD_SPIN_MAX,
};

verus! {

/// Arena capacity: beyond these counts newly spawned entities of the kind
/// are quietly not admitted this tick.
pub const MAX_SHIPS: usize = 100;

pub const MAX_BULLETS: usize = 4000;

pub const MAX_ASTEROIDS: usize = 2000;

pub const MAX_PARTICLES: usize = 4000;

/// The whole simulation: the live entity set, the arena, and the clock.
pub struct Game {
    pub ships: Vec<Ship>,
    pub bullets: Vec<Bullet>,
    pub asteroids: Vec<Asteroid>,
    pub particles: Vec<Particle>,
    pub width: i64,
    pub height: i64,
    pub tick: u64,
    /// Identity of the tracked (player) ship; its death is the loss
    /// condition.
    pub player_id: u64,
}

/// The terminal condition the core exposes: still running, all asteroids
/// destroyed (win), or the tracked ship gone (loss; it outranks a win on
/// the same tick).
#[derive(Clone, Copy, Debug, PartialEq, Eq, Structural)]
pub enum GameStatus {
    Playing,
    Won,
    Lost,
}

/// A snapshot entry handed to the renderer: enough to draw each entity as
/// a wireframe polygon or a dot.
#[derive(Clone, Copy, Debug, PartialEq, Eq, Structural)]
pub enum GameObjects {
    Ship(Ship),
    Bullet(Bullet),
    Asteroid(Asteroid),
    Particle(Particle),
}

impl GameObjects {
    /// Whether the entity is still live at the given tick: ships need
    /// health, bullets and particles must be neither collided nor expired,
    /// asteroids must not have collided.
    pub open spec fn spec_alive(self, now: int) -> bool {
        match self {
            GameObjects::Ship(s) => s.health >= 0,
            GameObjects::Bullet(b) => b.spec_alive(now),
            GameObjects::Asteroid(a) => !a.collided,
            GameObjects::Particle(p) => !p.spec_expired(now),
        }
    }

    pub open spec fn wf(self) -> bool {
        match self {
            GameObjects::Ship(s) => s.wf(),
            GameObjects::Bullet(b) => b.wf(),
            GameObjects::Asteroid(a) => a.wf(),
            GameObjects::Particle(p) => p.wf(),
        }
    }

    pub fn is_alive(&self, now: u64) -> (r: bool)
        requires
            self.wf(),
        ensures
            r == self.spec_alive(now as int),
    {
        match self {
            GameObjects::Ship(s) => s.health >= 0,
            GameObjects::Bullet(b) => b.is_alive(now),
            GameObjects::Asteroid(a) => !a.collided,
            GameObjects::Particle(p) => !p.is_expired(now),
        }
    }

    /// One tick of this entity alone, producing its successor entities:
    /// the moved self, plus — for a firing ship — the spawned bullet.
    /// Collisions and reaping are the lifecycle manager's business, not
    /// this method's.
    pub fn update(self, c: &ShipControl, now: u64, width: i64, height: i64) -> (r: Vec<
        GameObjects,
    >)
        requires
            self.wf(),
            0 < width <= ARENA_LIMIT,
            0 < height <= ARENA_LIMIT,
            now <= 0x1000000000000,
        ensures
            match self {
                GameObjects::Ship(s) => {
                    &&& r@[0] == GameObjects::Ship(
                        s.spec_step(*c, now as int, width as int, height as int),
                    )
                    &&& if s.spec_fires(*c, now as int) {
                        r@.len() == 2 && r@[1] == GameObjects::Bullet(
                            s.spec_spawned_bullet(now as int, width as int, height as int),
                        )
                    } else {
                        r@.len() == 1
                    }
                },
                GameObjects::Bullet(b) => r@ == seq![
                    GameObjects::Bullet(b.spec_step(width as int, height as int)),
                ],
                GameObjects::Asteroid(a) => r@ == seq![
                    GameObjects::Asteroid(a.spec_step(width as int, height as int)),
                ],
                GameObjects::Particle(p) => exists|ang: int|
                    0 <= ang < 360000 && r@ == seq![
                        GameObjects::Particle(p.spec_step(ang, width as int, height as int)),
                    ],
            },
            forall|i: int| 0 <= i < r@.len() ==> (#[trigger] r@[i]).wf(),
    {
        let mut out: Vec<GameObjects> = Vec::new();
        match self {
            GameObjects::Ship(s) => {
                let stepped = s.update(c, now, width, height);
                out.push(GameObjects::Ship(stepped.0));
                match stepped.1 {
                    Some(b) => {
                        out.push(GameObjects::Bullet(b));
                    },
                    None => {},
                }
            },
            GameObjects::Bullet(b) => {
                out.push(GameObjects::Bullet(b.update(width, height)));
                proof {
                    assert(out@ =~= seq![
                        GameObjects::Bullet(b.spec_step(width as int, height as int)),
                    ]);
                }
            },
            GameObjects::Asteroid(a) => {
                out.push(GameObjects::Asteroid(a.update(width, height)));
                proof {
                    assert(out@ =~= seq![
                        GameObjects::Asteroid(a.spec_step(width as int, height as int)),
                    ]);
                }
            },
            GameObjects::Particle(p) => {
                let moved = p.update(width, height);
                out.push(GameObjects::Particle(moved));
                proof {
                    let ang = choose|ang: int|
                        0 <= ang < 360000 && moved == p.spec_step(
                            ang,
                            width as int,
                            height as int,
                        );
                    assert(out@ =~= seq![
                        GameObjects::Particle(p.spec_step(ang, width as int, height as int)),
                    ]);
                }
            },
        }
        out
    }

    /// Where to draw the entity.
    pub fn position(&self) -> (r: Vec2)
        ensures
            r == (match *self {
                GameObjects::Ship(s) => s.pos,
                GameObjects::Bullet(b) => b.pos,
                GameObjects::Asteroid(a) => a.pos,
                GameObjects::Particle(p) => p.pos,
            }),
    {
        match self {
            GameObjects::Ship(s) => s.pos,
            GameObjects::Bullet(b) => b.pos,
            GameObjects::Asteroid(a) => a.pos,
            GameObjects::Particle(p) => p.pos,
        }
    }
}

impl Game {
    pub open spec fn wf(self) -> bool {
        &&& 0 < self.width <= ARENA_LIMIT
        &&& 0 < self.height <= ARENA_LIMIT
        &&& self.tick < 0x1000000000000
        &&& self.ships@.len() <= MAX_SHIPS
        &&& self.bullets@.len() <= MAX_BULLETS
        &&& self.asteroids@.len() <= MAX_ASTEROIDS
        &&& self.particles@.len() <= MAX_PARTICLES
        &&& forall|j: int|
            0 <= j < self.ships@.len() ==> (#[trigger] self.ships@[j]).wf()
                && self.ships@[j].health >= 0
        &&& forall|k: int|
            0 <= k < self.bullets@.len() ==> (#[trigger] self.bullets@[k]).wf()
                && !self.bullets@[k].collided && self.tick < self.bullets@[k].spawn
                + self.bullets@[k].life
        &&& forall|i: int|
            0 <= i < self.asteroids@.len() ==> (#[trigger] self.asteroids@[i]).wf()
                && !self.asteroids@[i].collided
        &&& forall|i: int|
            0 <= i < self.particles@.len() ==> (#[trigger] self.particles@[i]).wf()
                && self.tick < self.particles@[i].spawn + self.particles@[i].life
    }

    /// No expired bullet is ever in the live set: a bullet spawned at `t0`
    /// with lifetime `L` is present only while the clock reads less than
    /// `t0 + L`. Together with `update`'s contract — which keeps every
    /// surviving, uncollided bullet until that moment — this pins the
    /// bullet lifecycle on both sides.
    pub proof fn lemma_no_expired_bullet_lives(self, k: int)
        requires
            self.wf(),
            0 <= k < self.bullets@.len(),
        ensures
            self.tick < self.bullets@[k].spawn + self.bullets@[k].life,
            !self.bullets@[k].spec_expired(self.tick as int),
    {
    }

    /// Whether the tracked ship is still in the live set.
    pub open spec fn spec_has_player(self) -> bool {
        exists|j: int| 0 <= j < self.ships@.len() && (#[trigger] self.ships@[j]).id == self.player_id
    }

    pub open spec fn spec_status(self) -> GameStatus {
        if !self.spec_has_player() {
            GameStatus::Lost
        } else if self.asteroids@.len() == 0 {
            GameStatus::Won
        } else {
            GameStatus::Playing
        }
    }

    /// The terminal condition: lost once the tracked ship is gone, won
    /// once no asteroid remains.
    pub fn status(&self) -> (r: GameStatus)
        ensures
            r == self.spec_status(),
    {
        let n: usize = self.ships.len();
        let mut j: usize = 0;
        let mut found: bool = false;
        while j < n
            invariant
                0 <= j <= n,
                n == self.ships@.len(),
                found == exists|j2: int|
                    0 <= j2 < j && (#[trigger] self.ships@[j2]).id == self.player_id,
            decreases n - j,
        {
            if self.ships[j].id == self.player_id {
                found = true;
            }
            j = j + 1;
        }
        if !found {
            GameStatus::Lost
        } else if self.asteroids.len() == 0 {
            GameStatus::Won
        } else {
            GameStatus::Playing
        }
    }

    /// The renderer's snapshot: every live entity, ships first, then
    /// bullets, asteroids and particles.
    pub fn objects(&self) -> (r: Vec<GameObjects>)
        requires
            self.wf(),
        ensures
            r@.len() == self.ships@.len() + self.bullets@.len() + self.asteroids@.len()
                + self.particles@.len(),
            forall|j: int| 0 <= j < self.ships@.len() ==> #[trigger] r@[j] == GameObjects::Ship(
                self.ships@[j],
            ),
            forall|k: int| 0 <= k < self.bullets@.len() ==> #[trigger] r@[self.ships@.len() + k]
                == GameObjects::Bullet(self.bullets@[k]),
            forall|i: int| 0 <= i < self.asteroids@.len() ==> #[trigger] r@[self.ships@.len()
                + self.bullets@.len() + i] == GameObjects::Asteroid(self.asteroids@[i]),
            forall|i: int| 0 <= i < self.particles@.len() ==> #[trigger] r@[self.ships@.len()
                + self.bullets@.len() + self.asteroids@.len() + i] == GameObjects::Particle(
                self.particles@[i],
            ),
    {
        let mut out: Vec<GameObjects> = Vec::new();
        let mut j: usize = 0;
        while j < self.ships.len()
            invariant
                0 <= j <= self.ships@.len(),
                out@.len() == j,
                forall|j2: int| 0 <= j2 < j ==> #[trigger] out@[j2] == GameObjects::Ship(
                    self.ships@[j2],
                ),
            decreases self.ships@.len() - j,
        {
            out.push(GameObjects::Ship(self.ships[j]));
            j = j + 1;
        }
        let mut k: usize = 0;
        while k < self.bullets.len()
            invariant
                0 <= k <= self.bullets@.len(),
                out@.len() == self.ships@.len() + k,
                forall|j2: int| 0 <= j2 < self.ships@.len() ==> #[trigger] out@[j2]
                    == GameObjects::Ship(self.ships@[j2]),
                forall|k2: int| 0 <= k2 < k ==> #[trigger] out@[self.ships@.len() + k2]
                    == GameObjects::Bullet(self.bullets@[k2]),
            decreases self.bullets@.len() - k,
        {
            out.push(GameObjects::Bullet(self.bullets[k]));
            k = k + 1;
        }
        let mut i: usize = 0;
        while i < self.asteroids.len()
            invariant
                0 <= i <= self.asteroids@.len(),
                out@.len() == self.ships@.len() + self.bullets@.len() + i,
                forall|j2: int| 0 <= j2 < self.ships@.len() ==> #[trigger] out@[j2]
                    == GameObjects::Ship(self.ships@[j2]),
                forall|k2: int| 0 <= k2 < self.bullets@.len() ==> #[trigger] out@[self.ships@.len()
                    + k2] == GameObjects::Bullet(self.bullets@[k2]),
                forall|i2: int| 0 <= i2 < i ==> #[trigger] out@[self.ships@.len()
                    + self.bullets@.len() + i2] == GameObjects::Asteroid(self.asteroids@[i2]),
            decreases self.asteroids@.len() - i,
        {
            out.push(GameObjects::Asteroid(self.asteroids[i]));
            i = i + 1;
        }
        let mut p: usize = 0;
        while p < self.particles.len()
            invariant
                0 <= p <= self.particles@.len(),
                out@.len() == self.ships@.len() + self.bullets@.len() + self.asteroids@.len() + p,
                forall|j2: int| 0 <= j2 < self.ships@.len() ==> #[trigger] out@[j2]
                    == GameObjects::Ship(self.ships@[j2]),
                forall|k2: int| 0 <= k2 < self.bullets@.len() ==> #[trigger] out@[self.ships@.len()
                    + k2] == GameObjects::Bullet(self.bullets@[k2]),
                forall|i2: int| 0 <= i2 < self.asteroids@.len() ==> #[trigger] out@[self.ships@.len()
                    + self.bullets@.len() + i2] == GameObjects::Asteroid(self.asteroids@[i2]),
                forall|i2: int| 0 <= i2 < p ==> #[trigger] out@[self.ships@.len()
                    + self.bullets@.len() + self.asteroids@.len() + i2] == GameObjects::Particle(
                    self.particles@[i2],
                ),
            decreases self.particles@.len() - p,
        {
            out.push(GameObjects::Particle(self.particles[p]));
            p = p + 1;
        }
        out
    }

    /// Start a new game: the sole external mutation entry point. A green
    /// player ship at rest in the middle of the arena, a red hunter ship a
    /// quarter arena to the right, both fresh standard hulls at full
    /// health, and the asked-for number of six-sided asteroids scattered
    /// at random positions with random heading, drift and spin — the
    /// contract pins both ships field by field and bounds every random
    /// asteroid draw.
    pub fn new(n_asteroids: usize) -> (g: Game)
        requires
            n_asteroids <= MAX_ASTEROIDS,
        ensures
            g.wf(),
            g.tick == 0,
            g.width == ARENA_WIDTH,
            g.height == ARENA_HEIGHT,
            g.player_id < 0xffffffff,
            g.ships@.len() == 2,
            g.ships@[0] == (Ship {
                id: g.player_id,
                pos: Vec2 { x: (ARENA_WIDTH / 2) as i64, y: (ARENA_HEIGHT / 2) as i64 },
                color: 0x00ff00,
                source: ControlSource::External,
                ..spec_default_ship()
            }),
            g.ships@[1] == (Ship {
                id: (g.player_id + 1) as u64,
                pos: Vec2 {
                    x: (ARENA_WIDTH / 2 + ARENA_WIDTH / 4) as i64,
                    y: (ARENA_HEIGHT / 2) as i64,
                },
                color: 0xff0000,
                source: ControlSource::Gunner,
                ..spec_default_ship()
            }),
            g.bullets@.len() == 0,
            g.particles@.len() == 0,
            g.asteroids@.len() == n_asteroids,
            forall|i: int|
                0 <= i < n_asteroids ==> {
                    let a = #[trigger] g.asteroids@[i];
                    &&& a.sides == 6
                    &&& a.size == 20000
                    &&& !a.collided
                    &&& a.impact == (Vec2 { x: 0, y: 0 })
                    &&& 0 <= a.pos.x <= ARENA_WIDTH
                    &&& 0 <= a.pos.y <= ARENA_HEIGHT
                    &&& -CHILD_SPEED_MAX <= a.vel.x <= CHILD_SPEED_MAX
                    &&& -CHILD_SPEED_MAX <= a.vel.y <= CHILD_SPEED_MAX
                    &&& 0 <= a.rot < 360000
                    &&& -CHILD_SPIN_MAX <= a.rot_vel <= CHILD_SPIN_MAX
                },
    {
        let player_id: u64 = crate::rng::rand_range_u64(0, 0xffffffff);
        let enemy_id: u64 = player_id + 1;
        let player = spawn(
            player_id,
            Vec2 { x: ARENA_WIDTH / 2, y: ARENA_HEIGHT / 2 },
            0x00ff00,
            ControlSource::External,
        );
        let enemy = spawn(
            enemy_id,
            Vec2 { x: ARENA_WIDTH / 2 + ARENA_WIDTH / 4, y: ARENA_HEIGHT / 2 },
            0xff0000,
            ControlSource::Gunner,
        );
        let mut ships: Vec<Ship> = Vec::new();
        ships.push(player);
        ships.push(enemy);
        let mut asteroids: Vec<Asteroid> = Vec::new();
        let mut i: usize = 0;
        while i < n_asteroids
            invariant
                0 <= i <= n_asteroids,
                asteroids@.len() == i,
                forall|i2: int|
                    0 <= i2 < i ==> {
                        let a = #[trigger] asteroids@[i2];
                        &&& a.wf()
                        &&& a.sides == 6
                        &&& a.size == 20000
                        &&& !a.collided
                        &&& a.impact == (Vec2 { x: 0, y: 0 })
                        &&& 0 <= a.pos.x <= ARENA_WIDTH
                        &&& 0 <= a.pos.y <= ARENA_HEIGHT
                        &&& -CHILD_SPEED_MAX <= a.vel.x <= CHILD_SPEED_MAX
                        &&& -CHILD_SPEED_MAX <= a.vel.y <= CHILD_SPEED_MAX
                        &&& 0 <= a.rot < 360000
                        &&& -CHILD_SPIN_MAX <= a.rot_vel <= CHILD_SPIN_MAX
                    },
            decreases n_asteroids - i,
        {
            let px: i64 = crate::rng::rand_range_u64(0, ARENA_WIDTH as u64 + 1) as i64;
            let py: i64 = crate::rng::rand_range_u64(0, ARENA_HEIGHT as u64 + 1) as i64;
            let vx: i64 = crate::rng::rand_range_u64(0, 2 * CHILD_SPEED_MAX as u64 + 1) as i64
                - CHILD_SPEED_MAX;
            let vy: i64 = crate::rng::rand_range_u64(0, 2 * CHILD_SPEED_MAX as u64 + 1) as i64
                - CHILD_SPEED_MAX;
            let rot: i64 = crate::rng::rand_range_u64(0, 360000) as i64;
            let spin: i64 = crate::rng::rand_range_u64(0, 2 * CHILD_SPIN_MAX as u64 + 1) as i64
                - CHILD_SPIN_MAX;
            asteroids.push(
                Asteroid {
                    pos: Vec2 { x: px, y: py },
                    vel: Vec2 { x: vx, y: vy },
                    rot,
                    rot_vel: spin,
                    size: 20000,
                    sides: 6,
                    collided: false,
                    impact: Vec2 { x: 0, y: 0 },
                },
            );
            i = i + 1;
        }
        Game {
            ships,
            bullets: Vec::new(),
            asteroids,
            particles: Vec::new(),
            width: ARENA_WIDTH,
            height: ARENA_HEIGHT,
            tick: 0,
            player_id,
        }
    }
}

/// The first ship in the set other than `j`: the aiming pilot's quarry.
pub open spec fn spec_first_other(ships: Seq<Ship>, j: int, i: int) -> Option<int>
    decreases ships.len() - i,
{
    if i < 0 || i >= ships.len() {
        None
    } else if i != j {
        Some(i)
    } else {
        spec_first_other(ships, j, i + 1)
    }
}

/// The intent ship `j` acts on this tick, by its control source: the
/// externally supplied intent, nothing, the all-out script, or the aiming
/// pilot leading the first other ship.
pub open spec fn spec_control_for(ships: Seq<Ship>, controls: Seq<ShipControl>, j: int) -> ShipControl {
    match ships[j].source {
        ControlSource::External => controls[j],
        ControlSource::Idle => spec_idle_control(),
        ControlSource::Hillarius => ShipControl {
            thrust_forward: true,
            thrust_aft: true,
            thrust_left: true,
            thrust_right: true,
            rotate_left: false,
            rotate_right: true,
            fire: true,
        },
        ControlSource::Gunner => match spec_first_other(ships, j, 0) {
            Some(t) => spec_gunner(ships[j], ships[t].pos, ships[t].vel, SHOT_SPEED as int),
            None => spec_idle_control(),
        },
    }
}

/// Every ship moved one tick by the integrator under its intent.
pub open spec fn spec_moved_ships(g: Game, controls: Seq<ShipControl>) -> Seq<Ship> {
    Seq::new(
        g.ships@.len(),
        |j: int|
            g.ships@[j].spec_step(
                spec_control_for(g.ships@, controls, j),
                g.tick as int,
                g.width as int,
                g.height as int,
            ),
    )
}

/// Every bullet drifted one tick.
pub open spec fn spec_moved_bullets(g: Game) -> Seq<Bullet> {
    Seq::new(g.bullets@.len(), |k: int| g.bullets@[k].spec_step(g.width as int, g.height as int))
}

/// Every asteroid drifted one tick.
pub open spec fn spec_moved_asts(g: Game) -> Seq<Asteroid> {
    Seq::new(
        g.asteroids@.len(),
        |i: int| g.asteroids@[i].spec_step(g.width as int, g.height as int),
    )
}

/// The bullets fired this tick by ships from `j` on, in ship order.
pub open spec fn spec_fired_bullets(
    g: Game,
    controls: Seq<ShipControl>,
    j: int,
) -> Seq<Bullet>
    decreases g.ships@.len() - j,
{
    if j < 0 || j >= g.ships@.len() {
        Seq::empty()
    } else {
        (if g.ships@[j].spec_fires(spec_control_for(g.ships@, controls, j), g.tick as int) {
            seq![
                g.ships@[j].spec_spawned_bullet(g.tick as int, g.width as int, g.height as int),
            ]
        } else {
            Seq::<Bullet>::empty()
        }) + spec_fired_bullets(g, controls, j + 1)
    }
}

/// The ships that leave resolution alive, from `j` on: health has not gone
/// negative.
pub open spec fn spec_live_ships(rs: Seq<Ship>, j: int) -> Seq<Ship>
    decreases rs.len() - j,
{
    if j < 0 || j >= rs.len() {
        Seq::empty()
    } else {
        (if rs[j].health >= 0 {
            seq![rs[j]]
        } else {
            Seq::<Ship>::empty()
        }) + spec_live_ships(rs, j + 1)
    }
}

/// The bullets that survive into the next tick, from `k` on: neither
/// collided nor expired by then.
pub open spec fn spec_live_bullets(bs: Seq<Bullet>, now: int, k: int) -> Seq<Bullet>
    decreases bs.len() - k,
{
    if k < 0 || k >= bs.len() {
        Seq::empty()
    } else {
        (if !bs[k].collided && now < bs[k].spawn + bs[k].life {
            seq![bs[k]]
        } else {
            Seq::<Bullet>::empty()
        }) + spec_live_bullets(bs, now, k + 1)
    }
}

/// The asteroids that survive resolution, from `i` on.
pub open spec fn spec_surviving_asts(ra: Seq<Asteroid>, i: int) -> Seq<Asteroid>
    decreases ra.len() - i,
{
    if i < 0 || i >= ra.len() {
        Seq::empty()
    } else {
        (if !ra[i].collided {
            seq![ra[i]]
        } else {
            Seq::<Asteroid>::empty()
        }) + spec_surviving_asts(ra, i + 1)
    }
}

/// The destroyed asteroids that still split, from `i` on: enough sides
/// left.
pub open spec fn spec_split_parents(ra: Seq<Asteroid>, i: int) -> Seq<Asteroid>
    decreases ra.len() - i,
{
    if i < 0 || i >= ra.len() {
        Seq::empty()
    } else {
        (if ra[i].collided && ra[i].sides > MIN_SIDES {
            seq![ra[i]]
        } else {
            Seq::<Asteroid>::empty()
        }) + spec_split_parents(ra, i + 1)
    }
}

/// The resolved ship set of one tick.
pub open spec fn spec_resolved_ships_seq(g: Game, controls: Seq<ShipControl>) -> Seq<Ship> {
    Seq::new(
        g.ships@.len(),
        |j: int|
            spec_resolved_ship(
                spec_moved_ships(g, controls),
                spec_moved_bullets(g),
                spec_moved_asts(g),
                j,
            ),
    )
}

/// The resolved bullet set of one tick.
pub open spec fn spec_resolved_bullets_seq(g: Game, controls: Seq<ShipControl>) -> Seq<Bullet> {
    Seq::new(
        g.bullets@.len(),
        |k: int|
            spec_resolved_bullet(
                spec_moved_ships(g, controls),
                spec_moved_bullets(g),
                spec_moved_asts(g),
                k,
            ),
    )
}

/// The resolved asteroid set of one tick.
pub open spec fn spec_resolved_asts_seq(g: Game, controls: Seq<ShipControl>) -> Seq<Asteroid> {
    Seq::new(
        g.asteroids@.len(),
        |i: int|
            spec_resolved_asteroid(
                spec_moved_ships(g, controls),
                spec_moved_bullets(g),
                spec_moved_asts(g),
                i,
            ),
    )
}

/// The ship set after one whole tick.
pub open spec fn spec_next_ships(g: Game, controls: Seq<ShipControl>) -> Seq<Ship> {
    spec_live_ships(spec_resolved_ships_seq(g, controls), 0)
}

/// The bullet set after one whole tick: the survivors, then this tick's
/// newly fired bullets as far as the arena capacity admits them.
pub open spec fn spec_next_bullets(g: Game, controls: Seq<ShipControl>) -> Seq<Bullet> {
    let live = spec_live_bullets(spec_resolved_bullets_seq(g, controls), g.tick + 1, 0);
    let fired = spec_fired_bullets(g, controls, 0);
    let room = if live.len() <= MAX_BULLETS {
        MAX_BULLETS - live.len()
    } else {
        0
    };
    let t = if fired.len() <= room {
        fired.len() as int
    } else {
        room as int
    };
    live + fired.take(t)
}

/// The particles that survive into the next tick, from `q` on: lifetime
/// not yet run out. (Whether a particle survives depends only on its spawn
/// tick and lifetime, which its motion never touches.)
pub open spec fn spec_live_particles(ps: Seq<Particle>, now: int, q: int) -> Seq<Particle>
    decreases ps.len() - q,
{
    if q < 0 || q >= ps.len() {
        Seq::empty()
    } else {
        (if now < ps[q].spawn + ps[q].life {
            seq![ps[q]]
        } else {
            Seq::<Particle>::empty()
        }) + spec_live_particles(ps, now, q + 1)
    }
}

/// This tick's exhaust of the ships from `j` on, in ship order.
pub open spec fn spec_exhaust_all(g: Game, controls: Seq<ShipControl>, j: int) -> Seq<Particle>
    decreases g.ships@.len() - j,
{
    if j < 0 || j >= g.ships@.len() {
        Seq::empty()
    } else {
        spec_exhaust(
            g.ships@[j],
            spec_control_for(g.ships@, controls, j),
            g.tick as int,
            g.width as int,
            g.height as int,
        ) + spec_exhaust_all(g, controls, j + 1)
    }
}

/// Find the aiming pilot's quarry.
fn first_other(ships: &Vec<Ship>, j: usize) -> (r: Option<usize>)
    ensures
        r is Some ==> 0 <= r->0 < ships@.len() && spec_first_other(ships@, j as int, 0) == Some(
            r->0 as int,
        ),
        r is None ==> spec_first_other(ships@, j as int, 0) is None,
{
    let n: usize = ships.len();
    let mut i: usize = 0;
    while i < n
        invariant
            0 <= i <= n,
            n == ships@.len(),
            spec_first_other(ships@, j as int, 0) == spec_first_other(ships@, j as int, i as int),
        decreases n - i,
    {
        if i != j {
            return Some(i);
        }
        i = i + 1;
    }
    None
}

/// Work out the intent ship `j` acts on this tick.
fn control_for(ships: &Vec<Ship>, controls: &Vec<ShipControl>, j: usize) -> (r: ShipControl)
    requires
        forall|j2: int| 0 <= j2 < ships@.len() ==> (#[trigger] ships@[j2]).wf(),
        j < ships@.len(),
        controls@.len() == ships@.len(),
    ensures
        r == spec_control_for(ships@, controls@, j as int),
{
    match ships[j].source {
        ControlSource::External => controls[j],
        ControlSource::Idle => crate::control::default_controller(),
        ControlSource::Hillarius => crate::control::hillarius(),
        ControlSource::Gunner => {
            let t = first_other(ships, j);
            match t {
                Some(t) => gunner_control(&ships[j], ships[t].pos, ships[t].vel, SHOT_SPEED),
                None => crate::control::default_controller(),
            }
        },
    }
}

impl Game {
    /// Run one simulation step to completion: every entity produces its
    /// successor state under this tick's intents, the collision engine
    /// resolves the moved set, the dead and expired are dropped, and the
    /// newly spawned — fired bullets, split fragments, exhaust — are
    /// appended to survive into the next tick. The ship and bullet sets of
    /// the result are pinned exactly; asteroid fragments and particle
    /// nudges draw randomness, so for them the contract states what holds
    /// of every outcome — fragment pairs field by field up to their drawn
    /// velocities, and the particle set as the surviving particles each
    /// stepped for some nudge angle, followed by this tick's exhaust as
    /// far as the capacity admits it.
    #[verifier::rlimit(100)]
    pub fn update(self, controls: &Vec<ShipControl>) -> (g: Game)
        requires
            self.wf(),
            controls@.len() == self.ships@.len(),
            self.tick + 1 < 0x1000000000000,
        ensures
            g.wf(),
            g.tick == self.tick + 1,
            g.width == self.width,
            g.height == self.height,
            g.player_id == self.player_id,
            g.ships@ == spec_next_ships(self, controls@),
            g.bullets@ == spec_next_bullets(self, controls@),
            ({
                let ra = spec_resolved_asts_seq(self, controls@);
                let surv = spec_surviving_asts(ra, 0);
                let parents = spec_split_parents(ra, 0);
                let room = if surv.len() <= MAX_ASTEROIDS {
                    (MAX_ASTEROIDS - surv.len()) as int / 2
                } else {
                    0
                };
                let npairs = if parents.len() <= room {
                    parents.len() as int
                } else {
                    room
                };
                &&& g.asteroids@.len() == surv.len() + 2 * npairs
                &&& g.asteroids@.take(surv.len() as int) == surv
                &&& forall|k: int|
                    0 <= k < npairs ==> {
                        let p = #[trigger] parents[k];
                        let c0 = g.asteroids@[surv.len() + 2 * k];
                        let c1 = g.asteroids@[surv.len() + 2 * k + 1];
                        &&& c0.sides == p.sides - 1
                        &&& c1.sides == p.sides - 1
                        &&& c0.pos == p.pos
                        &&& c1.pos == p.pos
                        &&& c0.size == crate::asteroid::spec_child_size(p.size as int)
                        &&& c1.size == crate::asteroid::spec_child_size(p.size as int)
                        &&& !c0.collided
                        &&& !c1.collided
                    }
            }),
            ({
                let keep = spec_live_particles(self.particles@, self.tick + 1, 0);
                let puffs = spec_exhaust_all(self, controls@, 0);
                let room = if keep.len() <= MAX_PARTICLES {
                    MAX_PARTICLES - keep.len()
                } else {
                    0
                };
                let t = if puffs.len() <= room {
                    puffs.len() as int
                } else {
                    room as int
                };
                &&& g.particles@.len() == keep.len() + t
                &&& forall|i: int|
                    0 <= i < keep.len() ==> #[trigger] spec_step_some_angle(
                        g.particles@[i],
                        keep[i],
                        self.width as int,
                        self.height as int,
                    )
                &&& forall|i: int|
                    0 <= i < t ==> #[trigger] g.particles@[keep.len() + i] == puffs[i]
            }),
    {
        let w: i64 = self.width;
        let h: i64 = self.height;
        let now: u64 = self.tick;
        let ns: usize = self.ships.len();
        // Move the ships, collect this tick's shots and exhaust.
        let mut moved_ships: Vec<Ship> = Vec::new();
        let mut fired: Vec<Bullet> = Vec::new();
        let mut puffs: Vec<Particle> = Vec::new();
        let mut j: usize = 0;
        while j < ns
            invariant
                0 <= j <= ns,
                ns == self.ships@.len(),
                controls@.len() == self.ships@.len(),
                self.wf(),
                w == self.width,
                h == self.height,
                now == self.tick,
                now + 1 < 0x1000000000000,
                moved_ships@.len() == j,
                forall|j2: int| 0 <= j2 < j ==> #[trigger] moved_ships@[j2] == spec_moved_ships(
                    self,
                    controls@,
                )[j2],
                forall|j2: int| 0 <= j2 < j ==> (#[trigger] moved_ships@[j2]).wf()
                    && moved_ships@[j2].health >= 0,
                spec_fired_bullets(self, controls@, 0) == fired@ + spec_fired_bullets(
                    self,
                    controls@,
                    j as int,
                ),
                forall|k: int| 0 <= k < fired@.len() ==> (#[trigger] fired@[k]).wf()
                    && !fired@[k].collided && fired@[k].spawn == now && fired@[k].life >= 2,
                forall|k: int| 0 <= k < puffs@.len() ==> (#[trigger] puffs@[k]).wf()
                    && puffs@[k].spawn == now && puffs@[k].life >= 2,
                spec_exhaust_all(self, controls@, 0) == puffs@ + spec_exhaust_all(
                    self,
                    controls@,
                    j as int,
                ),
            decreases ns - j,
        {
            let c: ShipControl = control_for(&self.ships, controls, j);
            let s: Ship = self.ships[j];
            let stepped = s.update(&c, now, w, h);
            proof {
                assert(stepped.0 == spec_moved_ships(self, controls@)[j as int]);
                assert(stepped.0.health == s.health);
            }
            moved_ships.push(stepped.0);
            let ghost fired_before = fired@;
            match stepped.1 {
                Some(b) => {
                    fired.push(b);
                },
                None => {},
            }
            proof {
                assert(spec_fired_bullets(self, controls@, j as int) == (if s.spec_fires(
                    spec_control_for(self.ships@, controls@, j as int),
                    now as int,
                ) {
                    seq![s.spec_spawned_bullet(now as int, w as int, h as int)]
                } else {
                    Seq::<Bullet>::empty()
                }) + spec_fired_bullets(self, controls@, j as int + 1));
                if s.spec_fires(spec_control_for(self.ships@, controls@, j as int), now as int) {
                    assert(fired@ =~= fired_before + seq![
                        s.spec_spawned_bullet(now as int, w as int, h as int),
                    ]);
                    assert(fired_before + (seq![
                        s.spec_spawned_bullet(now as int, w as int, h as int),
                    ] + spec_fired_bullets(self, controls@, j as int + 1)) =~= fired@
                        + spec_fired_bullets(self, controls@, j as int + 1));
                } else {
                    assert(Seq::<Bullet>::empty() + spec_fired_bullets(
                        self,
                        controls@,
                        j as int + 1,
                    ) =~= spec_fired_bullets(self, controls@, j as int + 1));
                }
            }
            let ex = exhaust(&s, &c, now, w, h);
            let mut e: usize = 0;
            let ghost exs = ex@;
            let ghost puffs_before = puffs@;
            proof {
                assert(puffs@ =~= puffs_before + exs.take(0));
            }
            while e < ex.len()
                invariant
                    0 <= e <= ex@.len(),
                    ex@ == exs,
                    now + 1 < 0x1000000000000,
                    puffs@ == puffs_before + exs.take(e as int),
                    forall|k: int| 0 <= k < exs.len() ==> (#[trigger] exs[k]).wf()
                        && exs[k].spawn == now && exs[k].life >= 2,
                    forall|k: int| 0 <= k < puffs@.len() ==> (#[trigger] puffs@[k]).wf()
                        && puffs@[k].spawn == now && puffs@[k].life >= 2,
                decreases ex@.len() - e,
            {
                puffs.push(ex[e]);
                proof {
                    assert(puffs@ =~= puffs_before + exs.take(e as int + 1));
                }
                e = e + 1;
            }
            proof {
                assert(exs.take(exs.len() as int) =~= exs);
                assert(exs == spec_exhaust(
                    self.ships@[j as int],
                    spec_control_for(self.ships@, controls@, j as int),
                    now as int,
                    w as int,
                    h as int,
                ));
                assert((puffs_before + exs) + spec_exhaust_all(self, controls@, j as int + 1)
                    =~= puffs_before + (exs + spec_exhaust_all(self, controls@, j as int + 1)));
            }
            j = j + 1;
        }
        proof {
            assert(moved_ships@ =~= spec_moved_ships(self, controls@));
        }
        // Move the bullets and the asteroids.
        let mut moved_bullets: Vec<Bullet> = Vec::new();
        let mut k: usize = 0;
        while k < self.bullets.len()
            invariant
                0 <= k <= self.bullets@.len(),
                self.wf(),
                w == self.width,
                h == self.height,
                moved_bullets@.len() == k,
                forall|k2: int| 0 <= k2 < k ==> #[trigger] moved_bullets@[k2]
                    == spec_moved_bullets(self)[k2],
                forall|k2: int| 0 <= k2 < k ==> (#[trigger] moved_bullets@[k2]).wf(),
            decreases self.bullets@.len() - k,
        {
            moved_bullets.push(self.bullets[k].update(w, h));
            k = k + 1;
        }
        proof {
            assert(moved_bullets@ =~= spec_moved_bullets(self));
        }
        let mut moved_asts: Vec<Asteroid> = Vec::new();
        let mut i: usize = 0;
        while i < self.asteroids.len()
            invariant
                0 <= i <= self.asteroids@.len(),
                self.wf(),
                w == self.width,
                h == self.height,
                moved_asts@.len() == i,
                forall|i2: int| 0 <= i2 < i ==> #[trigger] moved_asts@[i2] == spec_moved_asts(
                    self,
                )[i2],
                forall|i2: int| 0 <= i2 < i ==> (#[trigger] moved_asts@[i2]).wf(),
            decreases self.asteroids@.len() - i,
        {
            moved_asts.push(self.asteroids[i].update(w, h));
            i = i + 1;
        }
        proof {
            assert(moved_asts@ =~= spec_moved_asts(self));
        }
        // Resolve every pairwise interaction on the moved set.
        let (rs, rb, ra) = resolve(moved_ships, moved_bullets, moved_asts);
        proof {
            assert(rs@ =~= spec_resolved_ships_seq(self, controls@));
            assert(rb@ =~= spec_resolved_bullets_seq(self, controls@));
            assert(ra@ =~= spec_resolved_asts_seq(self, controls@));
        }
        // Reap the dead ships.
        let mut next_ships: Vec<Ship> = Vec::new();
        let mut j2: usize = 0;
        while j2 < rs.len()
            invariant
                0 <= j2 <= rs@.len(),
                rs@.len() <= MAX_SHIPS,
                spec_live_ships(rs@, 0) == next_ships@ + spec_live_ships(rs@, j2 as int),
                next_ships@.len() <= j2,
                forall|x: int| 0 <= x < rs@.len() ==> (#[trigger] rs@[x]).wf(),
                forall|x: int| 0 <= x < next_ships@.len() ==> (#[trigger] next_ships@[x]).wf()
                    && next_ships@[x].health >= 0,
            decreases rs@.len() - j2,
        {
            let ghost before = next_ships@;
            let s = rs[j2];
            if s.health >= 0 {
                next_ships.push(s);
                proof {
                    assert(before + (seq![rs@[j2 as int]] + spec_live_ships(rs@, j2 as int + 1))
                        =~= next_ships@ + spec_live_ships(rs@, j2 as int + 1));
                }
            } else {
                proof {
                    assert(Seq::<Ship>::empty() + spec_live_ships(rs@, j2 as int + 1)
                        =~= spec_live_ships(rs@, j2 as int + 1));
                }
            }
            j2 = j2 + 1;
        }
        proof {
            assert(next_ships@ =~= spec_live_ships(rs@, 0));
        }
        // Drop collided and expired bullets, then admit the newly fired.
        let mut next_bullets: Vec<Bullet> = Vec::new();
        let mut k2: usize = 0;
        while k2 < rb.len()
            invariant
                0 <= k2 <= rb@.len(),
                rb@.len() <= MAX_BULLETS,
                now + 1 < 0x1000000000000,
                spec_live_bullets(rb@, now + 1, 0) == next_bullets@ + spec_live_bullets(
                    rb@,
                    now + 1,
                    k2 as int,
                ),
                next_bullets@.len() <= k2,
                forall|x: int| 0 <= x < rb@.len() ==> (#[trigger] rb@[x]).wf(),
                forall|x: int| 0 <= x < next_bullets@.len() ==> (#[trigger] next_bullets@[x]).wf()
                    && !next_bullets@[x].collided && now + 1 < next_bullets@[x].spawn
                    + next_bullets@[x].life,
            decreases rb@.len() - k2,
        {
            let ghost before = next_bullets@;
            let b = rb[k2];
            if !b.collided && !b.is_expired(now + 1) {
                next_bullets.push(b);
                proof {
                    assert(before + (seq![rb@[k2 as int]] + spec_live_bullets(
                        rb@,
                        now + 1,
                        k2 as int + 1,
                    )) =~= next_bullets@ + spec_live_bullets(rb@, now + 1, k2 as int + 1));
                }
            } else {
                proof {
                    assert(Seq::<Bullet>::empty() + spec_live_bullets(rb@, now + 1, k2 as int + 1)
                        =~= spec_live_bullets(rb@, now + 1, k2 as int + 1));
                }
            }
            k2 = k2 + 1;
        }
        proof {
            assert(next_bullets@ =~= spec_live_bullets(rb@, now + 1, 0));
            assert(fired@ =~= spec_fired_bullets(self, controls@, 0));
        }
        let ghost live_bullets = next_bullets@;
        let room_b: usize = MAX_BULLETS - next_bullets.len();
        let nf: usize = if fired.len() <= room_b {
            fired.len()
        } else {
            room_b
        };
        let mut f: usize = 0;
        while f < nf
            invariant
                0 <= f <= nf,
                nf <= fired@.len(),
                next_bullets@.len() == live_bullets.len() + f,
                next_bullets@ == live_bullets + fired@.take(f as int),
                now + 1 < 0x1000000000000,
                forall|x: int| 0 <= x < fired@.len() ==> (#[trigger] fired@[x]).wf()
                    && !fired@[x].collided && fired@[x].spawn == now && fired@[x].life >= 2,
                forall|x: int| 0 <= x < next_bullets@.len() ==> (#[trigger] next_bullets@[x]).wf()
                    && !next_bullets@[x].collided && now + 1 < next_bullets@[x].spawn
                    + next_bullets@[x].life,
            decreases nf - f,
        {
            let ghost before = next_bullets@;
            next_bullets.push(fired[f]);
            proof {
                assert(next_bullets@ =~= live_bullets + fired@.take(f as int + 1));
            }
            f = f + 1;
        }
        // Keep the surviving asteroids, then split the destroyed ones that
        // still can, as far as there is room for both fragments.
        let mut next_asts: Vec<Asteroid> = Vec::new();
        let mut parents: Vec<Asteroid> = Vec::new();
        let mut i2: usize = 0;
        while i2 < ra.len()
            invariant
                0 <= i2 <= ra@.len(),
                ra@.len() <= MAX_ASTEROIDS,
                spec_surviving_asts(ra@, 0) == next_asts@ + spec_surviving_asts(ra@, i2 as int),
                spec_split_parents(ra@, 0) == parents@ + spec_split_parents(ra@, i2 as int),
                next_asts@.len() <= i2,
                parents@.len() <= i2,
                forall|x: int| 0 <= x < ra@.len() ==> (#[trigger] ra@[x]).wf(),
                forall|x: int| 0 <= x < next_asts@.len() ==> (#[trigger] next_asts@[x]).wf()
                    && !next_asts@[x].collided,
                forall|x: int| 0 <= x < parents@.len() ==> (#[trigger] parents@[x]).wf()
                    && parents@[x].sides > MIN_SIDES,
            decreases ra@.len() - i2,
        {
            let ghost sbefore = next_asts@;
            let ghost pbefore = parents@;
            let a = ra[i2];
            if !a.collided {
                next_asts.push(a);
                proof {
                    assert(sbefore + (seq![ra@[i2 as int]] + spec_surviving_asts(
                        ra@,
                        i2 as int + 1,
                    )) =~= next_asts@ + spec_surviving_asts(ra@, i2 as int + 1));
                    assert(pbefore + (Seq::<Asteroid>::empty() + spec_split_parents(
                        ra@,
                        i2 as int + 1,
                    )) =~= parents@ + spec_split_parents(ra@, i2 as int + 1));
                }
            } else if a.sides > MIN_SIDES {
                parents.push(a);
                proof {
                    assert(sbefore + (Seq::<Asteroid>::empty() + spec_surviving_asts(
                        ra@,
                        i2 as int + 1,
                    )) =~= next_asts@ + spec_surviving_asts(ra@, i2 as int + 1));
                    assert(pbefore + (seq![ra@[i2 as int]] + spec_split_parents(
                        ra@,
                        i2 as int + 1,
                    )) =~= parents@ + spec_split_parents(ra@, i2 as int + 1));
                }
            } else {
                proof {
                    assert(sbefore + (Seq::<Asteroid>::empty() + spec_surviving_asts(
                        ra@,
                        i2 as int + 1,
                    )) =~= next_asts@ + spec_surviving_asts(ra@, i2 as int + 1));
                    assert(pbefore + (Seq::<Asteroid>::empty() + spec_split_parents(
                        ra@,
                        i2 as int + 1,
                    )) =~= parents@ + spec_split_parents(ra@, i2 as int + 1));
                }
            }
            i2 = i2 + 1;
        }
        proof {
            assert(next_asts@ =~= spec_surviving_asts(ra@, 0));
            assert(parents@ =~= spec_split_parents(ra@, 0));
        }
        let ghost surv = next_asts@;
        let room_a: usize = (MAX_ASTEROIDS - next_asts.len()) / 2;
        let np: usize = if parents.len() <= room_a {
            parents.len()
        } else {
            room_a
        };
        let mut p: usize = 0;
        while p < np
            invariant
                0 <= p <= np,
                np <= parents@.len(),
                surv.len() + 2 * np <= MAX_ASTEROIDS,
                next_asts@.len() == surv.len() + 2 * p,
                next_asts@.take(surv.len() as int) == surv,
                forall|x: int| 0 <= x < parents@.len() ==> (#[trigger] parents@[x]).wf()
                    && parents@[x].sides > MIN_SIDES,
                forall|x: int| 0 <= x < next_asts@.len() ==> (#[trigger] next_asts@[x]).wf(),
                forall|x: int| 0 <= x < surv.len() ==> !(#[trigger] next_asts@[x]).collided,
                forall|x: int| surv.len() <= x < next_asts@.len() ==> !(
                #[trigger] next_asts@[x]).collided,
                forall|k3: int|
                    0 <= k3 < p ==> {
                        let pr = #[trigger] parents@[k3];
                        let c0 = next_asts@[surv.len() + 2 * k3];
                        let c1 = next_asts@[surv.len() + 2 * k3 + 1];
                        &&& c0.sides == pr.sides - 1
                        &&& c1.sides == pr.sides - 1
                        &&& c0.pos == pr.pos
                        &&& c1.pos == pr.pos
                        &&& c0.size == crate::asteroid::spec_child_size(pr.size as int)
                        &&& c1.size == crate::asteroid::spec_child_size(pr.size as int)
                        &&& !c0.collided
                        &&& !c1.collided
                    },
            decreases np - p,
        {
            let ghost before = next_asts@;
            let pr = parents[p];
            let c = pr.split();
            next_asts.push(c.0);
            next_asts.push(c.1);
            proof {
                assert(next_asts@.take(surv.len() as int) =~= before.take(surv.len() as int));
            }
            p = p + 1;
        }
        // Move the particles, drop the expired, admit this tick's exhaust.
        let mut next_particles: Vec<Particle> = Vec::new();
        let ghost mut kept: Seq<Particle> = Seq::empty();
        let mut q: usize = 0;
        while q < self.particles.len()
            invariant
                0 <= q <= self.particles@.len(),
                self.wf(),
                w == self.width,
                h == self.height,
                now == self.tick,
                now + 1 < 0x1000000000000,
                kept.len() == next_particles@.len(),
                kept.len() <= q,
                spec_live_particles(self.particles@, now + 1, 0) == kept + spec_live_particles(
                    self.particles@,
                    now + 1,
                    q as int,
                ),
                forall|x: int| 0 <= x < kept.len() ==> #[trigger] spec_step_some_angle(
                    next_particles@[x],
                    kept[x],
                    w as int,
                    h as int,
                ),
                forall|x: int| 0 <= x < next_particles@.len() ==> (
                #[trigger] next_particles@[x]).wf() && now + 1 < next_particles@[x].spawn
                    + next_particles@[x].life,
            decreases self.particles@.len() - q,
        {
            let ghost kept_before = kept;
            let p: Particle = self.particles[q];
            let moved = p.update(w, h);
            proof {
                let ang = choose|ang: int|
                    0 <= ang < 360000 && moved == p.spec_step(ang, w as int, h as int);
                assert(moved.spawn == p.spawn && moved.life == p.life);
                assert(spec_step_some_angle(moved, p, w as int, h as int));
            }
            if !moved.is_expired(now + 1) {
                next_particles.push(moved);
                proof {
                    kept = kept.push(p);
                    assert(kept_before + (seq![p] + spec_live_particles(
                        self.particles@,
                        now + 1,
                        q as int + 1,
                    )) =~= kept + spec_live_particles(self.particles@, now + 1, q as int + 1));
                }
            } else {
                proof {
                    assert(Seq::<Particle>::empty() + spec_live_particles(
                        self.particles@,
                        now + 1,
                        q as int + 1,
                    ) =~= spec_live_particles(self.particles@, now + 1, q as int + 1));
                }
            }
            q = q + 1;
        }
        let ghost survivors = next_particles@;
        proof {
            assert(kept =~= spec_live_particles(self.particles@, now + 1, 0));
            assert(puffs@ =~= spec_exhaust_all(self, controls@, 0));
        }
        let room_p: usize = MAX_PARTICLES - next_particles.len();
        let npf: usize = if puffs.len() <= room_p {
            puffs.len()
        } else {
            room_p
        };
        let mut pf: usize = 0;
        while pf < npf
            invariant
                0 <= pf <= npf,
                npf <= puffs@.len(),
                survivors.len() + npf <= MAX_PARTICLES,
                next_particles@.len() == survivors.len() + pf,
                next_particles@ == survivors + puffs@.take(pf as int),
                now + 1 < 0x1000000000000,
                forall|x: int| 0 <= x < puffs@.len() ==> (#[trigger] puffs@[x]).wf()
                    && puffs@[x].spawn == now && puffs@[x].life >= 2,
                forall|x: int| 0 <= x < next_particles@.len() ==> (
                #[trigger] next_particles@[x]).wf() && now + 1 < next_particles@[x].spawn
                    + next_particles@[x].life,
            decreases npf - pf,
        {
            next_particles.push(puffs[pf]);
            proof {
                assert(next_particles@ =~= survivors + puffs@.take(pf as int + 1));
            }
            pf = pf + 1;
        }
        proof {
            assert forall|i: int| 0 <= i < kept.len() implies #[trigger] spec_step_some_angle(
                next_particles@[i],
                kept[i],
                w as int,
                h as int,
            ) by {
                assert(next_particles@[i] == survivors[i]);
            }
        }
        Game {
            ships: next_ships,
            bullets: next_bullets,
            asteroids: next_asts,
            particles: next_particles,
            width: w,
            height: h,
            tick: now + 1,
            player_id: self.player_id,
        }
    }
}

/// A bullet that survives resolution uncollided stays in the live set
/// until its lifetime runs out: membership in the survivors of the reap.
pub proof fn lemma_live_bullet_kept(bs: Seq<Bullet>, now: int, i: int, k: int)
    requires
        0 <= i <= k < bs.len(),
        !bs[k].collided,
        now < bs[k].spawn + bs[k].life,
    ensures
        spec_live_bullets(bs, now, i).contains(bs[k]),
    decreases k - i,
{
    if i == k {
        assert(spec_live_bullets(bs, now, i)[0] == bs[k]);
    } else {
        lemma_live_bullet_kept(bs, now, i + 1, k);
        let rest = spec_live_bullets(bs, now, i + 1);
        let x = choose|x: int| 0 <= x < rest.len() && rest[x] == bs[k];
        if bs[i].collided || now >= bs[i].spawn + bs[i].life {
            assert(spec_live_bullets(bs, now, i)[x] == bs[k]);
        } else {
            assert(spec_live_bullets(bs, now, i)[x + 1] == bs[k]);
        }
    }
}

/// The bullet lifecycle, presence half: after a tick, every bullet of the
/// resolved set that did not collide and whose lifetime reaches past the
/// new clock is still in the live set. (The absence half is the well-
/// formedness invariant: no live bullet is ever expired.)
pub proof fn lemma_bullet_lifecycle(g: Game, controls: Seq<ShipControl>, k: int)
    requires
        g.wf(),
        0 <= k < spec_resolved_bullets_seq(g, controls).len(),
        !spec_resolved_bullets_seq(g, controls)[k].collided,
        g.tick + 1 < spec_resolved_bullets_seq(g, controls)[k].spawn + spec_resolved_bullets_seq(
            g,
            controls,
        )[k].life,
    ensures
        spec_next_bullets(g, controls).contains(spec_resolved_bullets_seq(g, controls)[k]),
{
    let bs = spec_resolved_bullets_seq(g, controls);
    lemma_live_bullet_kept(bs, g.tick + 1, 0, k);
    let live = spec_live_bullets(bs, g.tick + 1, 0);
    let x = choose|x: int| 0 <= x < live.len() && live[x] == bs[k];
    assert(spec_next_bullets(g, controls)[x] == bs[k]);
}

} // verus!
