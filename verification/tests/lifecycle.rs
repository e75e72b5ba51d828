use torus_combat::asteroid::Asteroid;
use torus_combat::bullet::Bullet;
use torus_combat::game::Game;
use torus_combat::vec2::Vec2;

fn empty_game() -> Game {
    // Start from a stock arena and strip it bare so nothing interferes.
    let mut g = Game::new(0);
    g.ships = vec![];
    g.bullets = vec![];
    g.asteroids = vec![];
    g.particles = vec![];
    g
}

fn lone_bullet(life: u64) -> Bullet {
    Bullet {
        pos: Vec2 { x: 100000, y: 100000 },
        vel: Vec2 { x: 1000, y: 0 },
        mass: 1000,
        spawn: 0,
        life,
        owner: 1,
        color: 0,
        collided: false,
    }
}

#[test]
fn bullet_lives_exactly_its_lifetime() {
    // Spawned at tick 0 with lifetime 3: present while the clock reads
    // less than 3, gone from then on.
    let mut g = empty_game();
    g.bullets = vec![lone_bullet(3)];
    let controls = vec![];
    g = g.update(&controls);
    assert_eq!(g.tick, 1);
    assert_eq!(g.bullets.len(), 1);
    g = g.update(&controls);
    assert_eq!(g.tick, 2);
    assert_eq!(g.bullets.len(), 1);
    g = g.update(&controls);
    assert_eq!(g.tick, 3);
    assert_eq!(g.bullets.len(), 0);
}

#[test]
fn bullet_drifts_by_its_velocity() {
    let mut g = empty_game();
    g.bullets = vec![lone_bullet(90)];
    g = g.update(&vec![]);
    assert_eq!(g.bullets[0].pos, Vec2 { x: 101000, y: 100000 });
}

#[test]
fn asteroid_wraps_around_the_far_edge() {
    let mut g = empty_game();
    g.asteroids = vec![Asteroid {
        pos: Vec2 { x: 799500, y: 100000 },
        vel: Vec2 { x: 2000, y: 0 },
        rot: 359000,
        rot_vel: 2000,
        size: 20000,
        sides: 6,
        collided: false,
        impact: Vec2 { x: 0, y: 0 },
    }];
    g = g.update(&vec![]);
    assert_eq!(g.asteroids.len(), 1);
    assert_eq!(g.asteroids[0].pos.x, 0);
    // The spin also wrapped the rotation around the full circle.
    assert_eq!(g.asteroids[0].rot, 1000);
}

#[test]
fn shattering_an_asteroid_in_one_pass() {
    // One asteroid with six sides directly on top of one bullet: after a
    // single tick the asteroid is gone, two five-sided fragments remain,
    // and the bullet is gone.
    let mut g = empty_game();
    g.bullets = vec![lone_bullet(90)];
    g.asteroids = vec![Asteroid {
        pos: Vec2 { x: 100000, y: 100000 },
        vel: Vec2 { x: 0, y: 0 },
        rot: 0,
        rot_vel: 0,
        size: 20000,
        sides: 6,
        collided: false,
        impact: Vec2 { x: 0, y: 0 },
    }];
    g = g.update(&vec![]);
    assert_eq!(g.bullets.len(), 0);
    assert_eq!(g.asteroids.len(), 2);
    assert_eq!(g.asteroids[0].sides, 5);
    assert_eq!(g.asteroids[1].sides, 5);
    assert_eq!(g.asteroids[0].size, 16000);
    assert_eq!(g.asteroids[1].size, 16000);
    assert!(!g.asteroids[0].collided);
    assert!(!g.asteroids[1].collided);
    // Both fragments sit where the parent was and fly sideways from the
    // bullet's path at a speed from the fragment range — which also shows
    // the random draw really is range-bound.
    for c in &g.asteroids {
        assert_eq!(c.pos, Vec2 { x: 100000, y: 100000 });
        assert_eq!(c.vel.x, 0);
        assert!(1000 <= c.vel.y.abs() && c.vel.y.abs() <= 3000);
    }
    assert!(g.asteroids[0].vel.y > 0);
    assert!(g.asteroids[1].vel.y < 0);
}

#[test]
fn a_three_sided_asteroid_shatters_without_fragments() {
    let mut g = empty_game();
    g.bullets = vec![lone_bullet(90)];
    g.asteroids = vec![Asteroid {
        pos: Vec2 { x: 100000, y: 100000 },
        vel: Vec2 { x: 0, y: 0 },
        rot: 0,
        rot_vel: 0,
        size: 20000,
        sides: 3,
        collided: false,
        impact: Vec2 { x: 0, y: 0 },
    }];
    g = g.update(&vec![]);
    assert_eq!(g.bullets.len(), 0);
    assert_eq!(g.asteroids.len(), 0);
}

#[test]
fn fragments_split_again_down_to_the_minimum() {
    // Keep shooting the fragments: side counts only ever go down by one,
    // and at three sides the line dies out.
    let mut g = empty_game();
    g.asteroids = vec![Asteroid {
        pos: Vec2 { x: 400000, y: 300000 },
        vel: Vec2 { x: 0, y: 0 },
        rot: 0,
        rot_vel: 0,
        size: 20000,
        sides: 5,
        collided: false,
        impact: Vec2 { x: 0, y: 0 },
    }];
    let mut max_sides = 5u32;
    for _ in 0..50 {
        if g.asteroids.is_empty() {
            break;
        }
        // Drop a fresh bullet on every asteroid each tick.
        g.bullets = g
            .asteroids
            .iter()
            .map(|a| Bullet {
                pos: a.pos,
                vel: Vec2 { x: 500, y: 0 },
                mass: 1000,
                spawn: g.tick,
                life: 2,
                owner: 1,
                color: 0,
                collided: false,
            })
            .collect();
        g = g.update(&vec![]);
        let new_max = g.asteroids.iter().map(|a| a.sides).max().unwrap_or(0);
        assert!(new_max < max_sides, "side counts must fall every pass");
        max_sides = new_max.max(3);
        for a in &g.asteroids {
            assert!(a.sides >= 3);
        }
    }
    assert!(g.asteroids.is_empty(), "the asteroid line never died out");
}
