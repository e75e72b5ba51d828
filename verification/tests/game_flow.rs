use torus_combat::control::{default_controller, hillarius, ShipControl};
use torus_combat::game::{Game, GameObjects, GameStatus};
use torus_combat::particle::Particle;
use torus_combat::vec2::Vec2;

#[test]
fn a_new_game_has_two_ships_and_the_asked_asteroids() {
    let g = Game::new(3);
    assert_eq!(g.tick, 0);
    assert_eq!(g.ships.len(), 2);
    assert_eq!(g.asteroids.len(), 3);
    assert_eq!(g.bullets.len(), 0);
    for a in &g.asteroids {
        assert_eq!(a.sides, 6);
    }
    assert_eq!(g.ships[0].id, g.player_id);
    assert_eq!(g.status(), GameStatus::Playing);
}

#[test]
fn no_asteroids_means_victory() {
    let g = Game::new(0);
    assert_eq!(g.status(), GameStatus::Won);
}

#[test]
fn losing_the_tracked_ship_means_defeat() {
    let mut g = Game::new(1);
    g.ships = vec![];
    assert_eq!(g.status(), GameStatus::Lost);
}

#[test]
fn the_clock_advances_one_tick_per_step() {
    let mut g = Game::new(2);
    let controls = vec![ShipControl::default(), ShipControl::default()];
    g = g.update(&controls);
    assert_eq!(g.tick, 1);
    g = g.update(&controls);
    assert_eq!(g.tick, 2);
    assert_eq!(g.width, 800000);
    assert_eq!(g.height, 600000);
}

#[test]
fn scripted_pilots_produce_their_intents() {
    let h = hillarius();
    assert!(h.thrust_forward && h.thrust_aft && h.thrust_left && h.thrust_right);
    assert!(h.rotate_right && !h.rotate_left);
    assert!(h.fire);
    let d = default_controller();
    assert!(
        !d.thrust_forward && !d.thrust_aft && !d.thrust_left && !d.thrust_right && !d.rotate_left
            && !d.rotate_right && !d.fire
    );
}

#[test]
fn the_renderer_snapshot_covers_every_entity() {
    let g = Game::new(4);
    let objs = g.objects();
    assert_eq!(objs.len(), 2 + 4);
    match objs[0] {
        GameObjects::Ship(s) => assert_eq!(s.id, g.ships[0].id),
        _ => panic!("ships come first in the snapshot"),
    }
    match objs[2] {
        GameObjects::Asteroid(a) => assert_eq!(a.sides, 6),
        _ => panic!("asteroids follow the bullets"),
    }
    assert_eq!(objs[0].position(), g.ships[0].pos);
}

#[test]
fn liveness_of_each_entity_kind() {
    let g = Game::new(1);
    let mut dead_ship = g.ships[0];
    dead_ship.health = -1;
    assert!(!GameObjects::Ship(dead_ship).is_alive(0));
    assert!(GameObjects::Ship(g.ships[0]).is_alive(0));
    let mut rock = g.asteroids[0];
    assert!(GameObjects::Asteroid(rock).is_alive(0));
    rock.collided = true;
    assert!(!GameObjects::Asteroid(rock).is_alive(0));
}

#[test]
fn particle_fade_runs_from_full_to_nothing() {
    let p = Particle {
        pos: Vec2 { x: 100000, y: 100000 },
        vel: Vec2 { x: 0, y: 0 },
        wobble: 500,
        spawn: 0,
        life: 100,
        color: 0,
    };
    assert_eq!(p.alpha_permille(0), 1000);
    assert_eq!(p.alpha_permille(50), 500);
    assert_eq!(p.alpha_permille(100), 0);
    assert_eq!(p.alpha_permille(5000), 0);
}

#[test]
fn a_firing_ship_populates_the_bullet_set() {
    let mut g = Game::new(0);
    let fire = ShipControl { fire: true, ..ShipControl::default() };
    let controls = vec![fire, ShipControl::default()];
    // Run past the cannon cooldown; the player ship fires, the enemy
    // (whose aim has no quarry intent here) may or may not.
    for _ in 0..8 {
        g = g.update(&controls);
    }
    assert!(g.bullets.iter().any(|b| b.owner == g.player_id));
}

#[test]
fn exhaust_particles_join_and_leave_the_live_set() {
    let mut g = Game::new(0);
    let thrust = ShipControl { thrust_forward: true, ..ShipControl::default() };
    let controls = vec![thrust, ShipControl::default()];
    g = g.update(&controls);
    assert!(g.particles.len() >= 1);
    // Particles live thirty ticks; coast long enough and they are gone.
    let coast = vec![ShipControl::default(), ShipControl::default()];
    for _ in 0..40 {
        let n = g.ships.len();
        g = g.update(&coast[..n].to_vec());
    }
    assert_eq!(g.particles.len(), 0);
}

#[test]
fn per_entity_update_yields_the_successors() {
    let g = Game::new(1);
    let idle = ShipControl::default();
    // A ship that does not fire succeeds itself alone.
    let ship_succ = GameObjects::Ship(g.ships[0]).update(&idle, 0, g.width, g.height);
    assert_eq!(ship_succ.len(), 1);
    // A firing ship also emits its bullet.
    let fire = ShipControl { fire: true, ..ShipControl::default() };
    let both = GameObjects::Ship(g.ships[0]).update(&fire, 10, g.width, g.height);
    assert_eq!(both.len(), 2);
    match (&both[0], &both[1]) {
        (GameObjects::Ship(s), GameObjects::Bullet(b)) => {
            assert_eq!(b.owner, s.id);
            assert_eq!(b.spawn, 10);
        }
        _ => panic!("a moved ship then its bullet"),
    }
    // An asteroid succeeds itself, drifted.
    let rock = GameObjects::Asteroid(g.asteroids[0]).update(&idle, 0, g.width, g.height);
    assert_eq!(rock.len(), 1);
}

#[test]
fn a_new_game_pins_both_ships_and_bounds_the_rocks() {
    let g = Game::new(2);
    let p = &g.ships[0];
    assert_eq!(p.pos, Vec2 { x: 400000, y: 300000 });
    assert_eq!(p.vel, Vec2 { x: 0, y: 0 });
    assert_eq!(p.health, 10);
    assert_eq!(p.heat, 0);
    assert!(!p.overheated);
    assert_eq!(p.color, 0x00ff00);
    let e = &g.ships[1];
    assert_eq!(e.pos, Vec2 { x: 600000, y: 300000 });
    assert_eq!(e.color, 0xff0000);
    assert_eq!(e.id, g.player_id + 1);
    assert_eq!(e.health, 10);
    for a in &g.asteroids {
        assert_eq!(a.size, 20000);
        assert!(0 <= a.pos.x && a.pos.x <= g.width);
        assert!(0 <= a.pos.y && a.pos.y <= g.height);
        assert!(a.vel.x.abs() <= 3000 && a.vel.y.abs() <= 3000);
        assert!(0 <= a.rot && a.rot < 360000);
        assert!(a.rot_vel.abs() <= 2000);
        assert!(!a.collided);
    }
}

#[test]
fn exhaust_survives_the_next_tick_and_its_wobble_decays() {
    let mut g = Game::new(0);
    let thrust = ShipControl { thrust_forward: true, ..ShipControl::default() };
    let idle = ShipControl::default();
    g = g.update(&vec![thrust, idle]);
    assert_eq!(g.particles.len(), 1);
    assert_eq!(g.particles[0].spawn, 0);
    assert_eq!(g.particles[0].wobble, 1000);
    // One more tick: the survivor is the same particle stepped once, its
    // wobble down to five percent.
    g = g.update(&vec![idle, idle]);
    assert_eq!(g.particles.len(), 1);
    assert_eq!(g.particles[0].spawn, 0);
    assert_eq!(g.particles[0].wobble, 50);
}
