use torus_combat::arena::{wrap_coord, wrap_vec};
use torus_combat::vec2::Vec2;

#[test]
fn wrap_x_at_width_resets_to_zero() {
    assert_eq!(wrap_coord(800000, 800000), 0);
    assert_eq!(wrap_coord(800001, 800000), 0);
}

#[test]
fn wrap_y_at_height_resets_to_zero() {
    assert_eq!(wrap_coord(600000, 600000), 0);
}

#[test]
fn wrap_x_below_zero_resets_to_width() {
    assert_eq!(wrap_coord(-1, 800000), 800000);
    assert_eq!(wrap_coord(-500, 800000), 800000);
}

#[test]
fn wrap_y_below_zero_resets_to_height() {
    assert_eq!(wrap_coord(-1, 600000), 600000);
}

#[test]
fn wrap_interior_untouched() {
    assert_eq!(wrap_coord(0, 800000), 0);
    assert_eq!(wrap_coord(423117, 800000), 423117);
    assert_eq!(wrap_coord(799999, 800000), 799999);
}

#[test]
fn wrap_idempotent_at_boundary() {
    let once = wrap_coord(800000, 800000);
    assert_eq!(wrap_coord(once, 800000), once);
    let below = wrap_coord(0, 600000);
    assert_eq!(wrap_coord(below, 600000), below);
}

#[test]
fn wrap_vec_each_axis_independent() {
    let p = Vec2 { x: 800000, y: -3 };
    let w = wrap_vec(p, 800000, 600000);
    assert_eq!(w.x, 0);
    assert_eq!(w.y, 600000);
    let q = Vec2 { x: -3, y: 600000 };
    let v = wrap_vec(q, 800000, 600000);
    assert_eq!(v.x, 800000);
    assert_eq!(v.y, 0);
}
