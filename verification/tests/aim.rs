use torus_combat::intercept::{gunner_control, target};
use torus_combat::ship::{spawn, ControlSource, Ship};
use torus_combat::vec2::Vec2;

fn shooter_facing_up() -> Ship {
    let mut s = spawn(1, Vec2 { x: 0, y: 0 }, 0, ControlSource::Idle);
    s.rot = 90000;
    s
}

#[test]
fn stationary_target_dead_ahead_needs_no_lead() {
    // Ship heading 90 degrees, target ten units straight up: lead is zero.
    let s = shooter_facing_up();
    let lead = target(&s, Vec2 { x: 0, y: 10000 }, Vec2 { x: 0, y: 0 }, 7000);
    assert_eq!(lead, Some(0));
}

#[test]
fn stationary_target_abeam_needs_a_quarter_turn() {
    // Target ten units along the x axis: the bearing is a full 90 degrees
    // to starboard of the heading.
    let s = shooter_facing_up();
    let lead = target(&s, Vec2 { x: 10000, y: 0 }, Vec2 { x: 0, y: 0 }, 7000);
    assert_eq!(lead, Some(90000));
}

#[test]
fn target_outflying_the_projectile_gives_no_shot() {
    // Target moving at 8 while the projectile flies at 7: unreachable.
    let s = shooter_facing_up();
    let lead = target(&s, Vec2 { x: 10000, y: 0 }, Vec2 { x: 0, y: 8000 }, 7000);
    assert_eq!(lead, None);
}

#[test]
fn crossing_target_gets_a_computed_lead() {
    // Target at (10, 0) drifting (0, 1), projectile speed 7: the lead
    // angle works out to about 81.79 degrees.
    let s = shooter_facing_up();
    let lead = target(&s, Vec2 { x: 10000, y: 0 }, Vec2 { x: 0, y: 1000 }, 7000);
    let l = lead.expect("an intercept exists");
    assert!(81780 <= l && l <= 81800, "lead angle was {} millidegrees", l);
}

#[test]
fn target_on_top_of_shooter_gives_no_shot() {
    let s = shooter_facing_up();
    let lead = target(&s, Vec2 { x: 0, y: 0 }, Vec2 { x: 0, y: 0 }, 7000);
    assert_eq!(lead, None);
}

#[test]
fn gunner_fires_when_lined_up() {
    let mut s = spawn(1, Vec2 { x: 0, y: 0 }, 0, ControlSource::Gunner);
    s.rot = 0;
    let c = gunner_control(&s, Vec2 { x: 10000, y: 0 }, Vec2 { x: 0, y: 0 }, 7000);
    assert!(c.fire);
    assert!(!c.rotate_left && !c.rotate_right);
}

#[test]
fn gunner_turns_toward_the_bearing() {
    let mut s = spawn(1, Vec2 { x: 0, y: 0 }, 0, ControlSource::Gunner);
    s.rot = 0;
    // Target straight up: the bearing is counterclockwise of the heading,
    // the lead comes out negative, the ship turns left.
    let up = gunner_control(&s, Vec2 { x: 0, y: 10000 }, Vec2 { x: 0, y: 0 }, 7000);
    assert!(up.rotate_left && !up.rotate_right && !up.fire);
    // Target straight down: clockwise, so it turns right.
    s.pos = Vec2 { x: 0, y: 20000 };
    let down = gunner_control(&s, Vec2 { x: 0, y: 10000 }, Vec2 { x: 0, y: 0 }, 7000);
    assert!(down.rotate_right && !down.rotate_left && !down.fire);
}

#[test]
fn gunner_holds_fire_with_no_shot() {
    let mut s = spawn(1, Vec2 { x: 0, y: 0 }, 0, ControlSource::Gunner);
    s.rot = 0;
    let c = gunner_control(&s, Vec2 { x: 10000, y: 0 }, Vec2 { x: 0, y: 8000 }, 7000);
    assert!(!c.fire && !c.rotate_left && !c.rotate_right);
}
