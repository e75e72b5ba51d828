use torus_combat::asteroid::Asteroid;
use torus_combat::bullet::Bullet;
use torus_combat::collide::resolve;
use torus_combat::ship::{spawn, ControlSource, Ship};
use torus_combat::vec2::{dist_sq, Vec2};

fn a_ship(id: u64, x: i64, y: i64) -> Ship {
    spawn(id, Vec2 { x, y }, 0, ControlSource::Idle)
}

fn a_bullet(owner: u64, x: i64, y: i64) -> Bullet {
    Bullet {
        pos: Vec2 { x, y },
        vel: Vec2 { x: 1000, y: 0 },
        mass: 1000,
        spawn: 0,
        life: 90,
        owner,
        color: 0,
        collided: false,
    }
}

fn an_asteroid(x: i64, y: i64, size: i64, sides: u32) -> Asteroid {
    Asteroid {
        pos: Vec2 { x, y },
        vel: Vec2 { x: 0, y: 0 },
        rot: 0,
        rot_vel: 0,
        size,
        sides,
        collided: false,
        impact: Vec2 { x: 0, y: 0 },
    }
}

#[test]
fn distance_test_is_symmetric() {
    let a = Vec2 { x: 123456, y: 654321 };
    let b = Vec2 { x: 400000, y: 100 };
    assert_eq!(dist_sq(a, b), dist_sq(b, a));
    let c = Vec2 { x: -5000, y: 70000 };
    assert_eq!(dist_sq(a, c), dist_sq(c, a));
    assert_eq!(dist_sq(b, b), 0);
}

#[test]
fn bullet_strikes_a_ship_and_both_feel_it() {
    let s = a_ship(1, 100000, 100000);
    let b = a_bullet(2, 100500, 100000);
    let (ships, bullets, _) = resolve(vec![s], vec![b], vec![]);
    assert_eq!(ships[0].health, 9);
    assert!(bullets[0].collided);
}

#[test]
fn bullet_never_hits_its_own_ship() {
    let s = a_ship(1, 100000, 100000);
    let b = a_bullet(1, 100500, 100000);
    let (ships, bullets, _) = resolve(vec![s], vec![b], vec![]);
    assert_eq!(ships[0].health, 10);
    assert!(!bullets[0].collided);
}

#[test]
fn asteroid_rams_a_ship_and_takes_its_velocity_as_impact() {
    let mut s = a_ship(1, 100000, 100000);
    s.vel = Vec2 { x: 4000, y: -2000 };
    let a = an_asteroid(110000, 100000, 20000, 6);
    let (ships, _, asteroids) = resolve(vec![s], vec![], vec![a]);
    assert_eq!(ships[0].health, 9);
    assert!(asteroids[0].collided);
    assert_eq!(asteroids[0].impact, Vec2 { x: 4000, y: -2000 });
}

#[test]
fn ship_hit_outranks_bullet_hit_for_an_asteroid() {
    // The asteroid overlaps a ship and a bullet at once; the ship is
    // checked first and short-circuits the bullet check, so the bullet
    // survives the tick.
    let s = a_ship(1, 100000, 100000);
    let b = a_bullet(9, 101000, 100000);
    let a = an_asteroid(103000, 100000, 20000, 6);
    let (ships, bullets, asteroids) = resolve(vec![s], vec![b], vec![a]);
    assert_eq!(ships[0].health, 9);
    assert!(asteroids[0].collided);
    assert_eq!(asteroids[0].impact, Vec2 { x: 0, y: 0 });
    assert!(!bullets[0].collided);
}

#[test]
fn two_asteroids_consume_two_different_bullets() {
    let b1 = a_bullet(9, 100000, 100000);
    let b2 = a_bullet(9, 102000, 100000);
    let a1 = an_asteroid(100100, 100000, 20000, 6);
    let a2 = an_asteroid(100200, 100000, 20000, 6);
    let (_, bullets, asteroids) = resolve(vec![], vec![b1, b2], vec![a1, a2]);
    assert!(asteroids[0].collided);
    assert!(asteroids[1].collided);
    assert!(bullets[0].collided);
    assert!(bullets[1].collided);
    // Each asteroid recorded the velocity of the bullet it consumed.
    assert_eq!(asteroids[0].impact, Vec2 { x: 1000, y: 0 });
    assert_eq!(asteroids[1].impact, Vec2 { x: 1000, y: 0 });
}

#[test]
fn far_apart_entities_never_interact() {
    let s = a_ship(1, 100000, 100000);
    let b = a_bullet(2, 500000, 500000);
    let a = an_asteroid(700000, 100000, 20000, 6);
    let (ships, bullets, asteroids) = resolve(vec![s], vec![b], vec![a]);
    assert_eq!(ships[0].health, 10);
    assert!(!bullets[0].collided);
    assert!(!asteroids[0].collided);
}

#[test]
fn bullet_impulse_pushes_the_ship() {
    // Bullet flying +x into a resting ship: the ship picks up velocity in
    // +x scaled by the mass ratio (1000 against 100000).
    let s = a_ship(1, 100000, 100000);
    let mut b = a_bullet(2, 100500, 100000);
    b.vel = Vec2 { x: 30000, y: 0 };
    let (ships, _, _) = resolve(vec![s], vec![b], vec![]);
    assert_eq!(ships[0].vel.x, 300);
    assert_eq!(ships[0].vel.y, 0);
}
