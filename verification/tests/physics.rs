use torus_combat::control::ShipControl;
use torus_combat::ship::{spawn, exhaust, ControlSource, Ship};
use torus_combat::vec2::Vec2;

const W: i64 = 800000;
const H: i64 = 600000;

fn idle() -> ShipControl {
    ShipControl::default()
}

fn ship_at(x: i64, y: i64) -> Ship {
    spawn(7, Vec2 { x, y }, 0, ControlSource::External)
}

#[test]
fn idle_ship_at_rest_stays_put() {
    let s = ship_at(100000, 100000);
    let (s2, shot) = s.update(&idle(), 0, W, H);
    assert!(shot.is_none());
    assert_eq!(s2.pos, s.pos);
    assert_eq!(s2.vel, s.vel);
    assert_eq!(s2.rot, s.rot);
    assert_eq!(s2.health, s.health);
}

#[test]
fn forward_thrust_accelerates_along_heading() {
    // Heading 0 degrees: thrust times the forward fraction over mass gives
    // 100 milli-units per tick of acceleration along +x.
    let s = ship_at(100000, 100000);
    let c = ShipControl { thrust_forward: true, ..idle() };
    let (s2, _) = s.update(&c, 0, W, H);
    assert_eq!(s2.vel, Vec2 { x: 100, y: 0 });
    assert_eq!(s2.pos, Vec2 { x: 100100, y: 100000 });
}

#[test]
fn friction_sheds_one_per_mille_each_tick() {
    let mut s = ship_at(100000, 100000);
    s.vel = Vec2 { x: 30000, y: 0 };
    let (s2, _) = s.update(&idle(), 0, W, H);
    assert_eq!(s2.vel.x, 29970);
    assert_eq!(s2.pos.x, 129970);
}

#[test]
fn rotate_intent_spins_and_decays() {
    let s = ship_at(100000, 100000);
    let c = ShipControl { rotate_left: true, ..idle() };
    let (s2, _) = s.update(&c, 0, W, H);
    // The 3000 millidegree nudge decays to nine tenths before it turns.
    assert_eq!(s2.rot_vel, 2700);
    assert_eq!(s2.rot, 2700);
    let c2 = ShipControl { rotate_right: true, ..idle() };
    let (s3, _) = s.update(&c2, 0, W, H);
    assert_eq!(s3.rot_vel, -2700);
}

#[test]
fn cannon_fires_only_after_cooldown() {
    let s = ship_at(100000, 100000);
    let c = ShipControl { fire: true, ..idle() };
    let (_, early) = s.update(&c, 5, W, H);
    assert!(early.is_none());
    let (s2, shot) = s.update(&c, 6, W, H);
    let b = shot.expect("cooldown elapsed");
    assert_eq!(s2.last_shot, 6);
    // Recoil opposes the heading by the bullet-to-ship mass ratio.
    assert_eq!(s2.vel.x, -300);
    // The bullet inherits the post-recoil ship velocity on top of muzzle
    // speed and starts half a radius ahead.
    assert_eq!(b.vel, Vec2 { x: 29700, y: 0 });
    assert_eq!(b.pos, Vec2 { x: 100500, y: 100000 });
    assert_eq!(b.spawn, 6);
    assert_eq!(b.life, 90);
    assert_eq!(b.owner, s.id);
    assert!(!b.collided);
}

#[test]
fn firing_heats_the_cannon() {
    let s = ship_at(100000, 100000);
    let c = ShipControl { fire: true, ..idle() };
    let (s2, _) = s.update(&c, 6, W, H);
    assert_eq!(s2.heat, 10000);
    assert!(!s2.overheated);
}

#[test]
fn overheated_ship_is_locked_out() {
    let mut s = ship_at(100000, 100000);
    s.heat = 150000;
    s.overheated = true;
    let all_in = ShipControl {
        thrust_forward: true,
        thrust_aft: true,
        thrust_left: true,
        thrust_right: true,
        rotate_left: true,
        rotate_right: true,
        fire: true,
    };
    let (s2, shot) = s.update(&all_in, 100, W, H);
    assert!(shot.is_none());
    assert_eq!(s2.vel, Vec2 { x: 0, y: 0 });
    assert_eq!(s2.rot_vel, 0);
    // Heat only decays while locked out.
    assert_eq!(s2.heat, 147750);
}

#[test]
fn sustained_fire_overheats_then_cooling_reenables() {
    let mut s = ship_at(100000, 100000);
    let c = ShipControl { fire: true, ..idle() };
    let mut now: u64 = 0;
    while !s.overheated {
        let (s2, _) = s.update(&c, now, W, H);
        s = s2;
        now += 1;
        assert!(now < 10000, "heat never crossed the overheat threshold");
    }
    assert!(s.heat > 100000);
    let mut cooled: u64 = 0;
    while s.overheated {
        let (s2, shot) = s.update(&c, now, W, H);
        assert!(shot.is_none(), "an overheated cannon must not fire");
        s = s2;
        now += 1;
        cooled += 1;
        assert!(cooled < 10000, "heat never fell back under the threshold");
    }
    assert!(s.heat < 20000);
    // Once released, the cannon works again.
    let (_, shot) = s.update(&c, now + 10, W, H);
    assert!(shot.is_some());
}

#[test]
fn speed_readout_is_the_velocity_magnitude() {
    let mut s = ship_at(100000, 100000);
    s.vel = Vec2 { x: 3000, y: 4000 };
    assert_eq!(s.speed(), 5000);
    s.vel = Vec2 { x: 0, y: 0 };
    assert_eq!(s.speed(), 0);
}

#[test]
fn exhaust_one_particle_per_active_thruster() {
    let s = ship_at(100000, 100000);
    let two = ShipControl { thrust_forward: true, thrust_left: true, ..idle() };
    let ps = exhaust(&s, &two, 3, W, H);
    assert_eq!(ps.len(), 2);
    assert_eq!(ps[0].wobble, 1000);
    assert_eq!(ps[1].wobble, 300);
    assert_eq!(ps[0].spawn, 3);
    assert_eq!(ps[0].life, 30);
    // The forward exhaust pushes out behind the ship.
    assert_eq!(ps[0].pos, Vec2 { x: 99000, y: 100000 });
}

#[test]
fn overheated_ship_makes_no_exhaust() {
    let mut s = ship_at(100000, 100000);
    s.overheated = true;
    let c = ShipControl { thrust_forward: true, ..idle() };
    let ps = exhaust(&s, &c, 0, W, H);
    assert_eq!(ps.len(), 0);
}
