use torus_combat::heat::{heat_decay, overheat_next};

#[test]
fn decay_keeps_985_per_mille() {
    assert_eq!(heat_decay(100000), 98500);
    assert_eq!(heat_decay(0), 0);
    assert_eq!(heat_decay(1), 0);
    assert_eq!(heat_decay(1000), 985);
}

#[test]
fn hysteresis_engages_above_high_threshold() {
    assert!(overheat_next(100001, false));
    assert!(!overheat_next(100000, false));
}

#[test]
fn hysteresis_releases_only_under_low_threshold() {
    assert!(overheat_next(50000, true));
    assert!(overheat_next(20000, true));
    assert!(!overheat_next(19999, true));
}

#[test]
fn hysteresis_keeps_state_in_the_band() {
    assert!(!overheat_next(50000, false));
    assert!(overheat_next(50000, true));
}

#[test]
fn idle_ticks_drain_heat_below_low_threshold() {
    // Monotone cooling: strictly down every tick until the lockout lifts.
    let mut h: u64 = 150000;
    let mut over = true;
    let mut ticks = 0u64;
    while over {
        let prev = h;
        h = heat_decay(h);
        assert!(h < prev);
        over = overheat_next(h, over);
        ticks += 1;
        assert!(ticks < 150000);
    }
    assert!(h < 20000);
}
