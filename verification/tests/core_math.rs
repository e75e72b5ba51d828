use torus_combat::asteroid::renorm;
use torus_combat::num::{clamp_i64, div_i64, div_signed_i64, isqrt_u128, mul_div_i64};
use torus_combat::trig::{atan2_mdeg, cos_mdeg, norm_mdeg, norm_signed_mdeg, sin_mdeg};
use torus_combat::vec2::{rotate, Vec2};

#[test]
fn sine_and_cosine_are_exact_at_the_quarter_turns() {
    assert_eq!(sin_mdeg(0), 0);
    assert_eq!(sin_mdeg(90000), 1000);
    assert_eq!(sin_mdeg(180000), 0);
    assert_eq!(sin_mdeg(270000), -1000);
    assert_eq!(cos_mdeg(0), 1000);
    assert_eq!(cos_mdeg(90000), 0);
    assert_eq!(cos_mdeg(180000), -1000);
    assert_eq!(cos_mdeg(270000), 0);
}

#[test]
fn sine_approximation_stays_close_inbetween() {
    // Thirty degrees: the true value is exactly one half.
    let s = sin_mdeg(30000);
    assert!((s - 500).abs() <= 5, "sin 30 degrees came out {}", s);
    let c = cos_mdeg(60000);
    assert!((c - 500).abs() <= 5, "cos 60 degrees came out {}", c);
}

#[test]
fn bearings_on_the_axes_are_exact() {
    assert_eq!(atan2_mdeg(0, 1000), 0);
    assert_eq!(atan2_mdeg(1000, 0), 90000);
    assert_eq!(atan2_mdeg(0, -1000), 180000);
    assert_eq!(atan2_mdeg(-1000, 0), -90000);
    assert_eq!(atan2_mdeg(0, 0), 0);
    assert_eq!(atan2_mdeg(1000, 1000), 45000);
}

#[test]
fn bearing_of_a_known_slope() {
    // atan(0.5) is 26.565 degrees.
    let a = atan2_mdeg(1000000, 2000000);
    assert!((a - 26565).abs() <= 5, "bearing came out {}", a);
}

#[test]
fn angle_normalization() {
    assert_eq!(norm_mdeg(-1000), 359000);
    assert_eq!(norm_mdeg(725000), 5000);
    assert_eq!(norm_mdeg(359999), 359999);
    assert_eq!(norm_signed_mdeg(350000), -10000);
    assert_eq!(norm_signed_mdeg(-350000), 10000);
    assert_eq!(norm_signed_mdeg(180000), 180000);
}

#[test]
fn integer_square_root_is_the_floor_root() {
    assert_eq!(isqrt_u128(0), 0);
    assert_eq!(isqrt_u128(1), 1);
    assert_eq!(isqrt_u128(143), 11);
    assert_eq!(isqrt_u128(144), 12);
    assert_eq!(isqrt_u128(19200000000000000), 138564064);
}

#[test]
fn scaled_division_truncates_toward_zero() {
    assert_eq!(mul_div_i64(-7, 3, 2), -10);
    assert_eq!(mul_div_i64(7, 3, 2), 10);
    assert_eq!(div_i64(-2999, 1000), -2);
    assert_eq!(div_signed_i64(7, -2), -3);
    assert_eq!(div_signed_i64(-7, -2), 3);
    assert_eq!(clamp_i64(7, -5, 5), 5);
    assert_eq!(clamp_i64(-7, -5, 5), -5);
    assert_eq!(clamp_i64(3, -5, 5), 3);
}

#[test]
fn renormalizing_keeps_direction_and_sets_speed() {
    // A 3-4-5 triangle scaled to speed 1000.
    let v = renorm(Vec2 { x: 3000, y: 4000 }, 1000);
    assert_eq!(v, Vec2 { x: 600, y: 800 });
    // The zero vector has no direction and goes along +x.
    let z = renorm(Vec2 { x: 0, y: 0 }, 2500);
    assert_eq!(z, Vec2 { x: 2500, y: 0 });
}

#[test]
fn rotating_a_vector_a_quarter_turn() {
    let v = rotate(Vec2 { x: 10000, y: 0 }, 90000);
    assert_eq!(v, Vec2 { x: 0, y: 10000 });
    let w = rotate(Vec2 { x: 10000, y: 0 }, 180000);
    assert_eq!(w, Vec2 { x: -10000, y: 0 });
}
