use gpu_life::rule::{encode, evolve, is_alive, next_alive, store, LEVEL_UNIT};

#[test]
fn rule_matches_the_life_table() {
    let table_dead = [false, false, false, true, false, false, false, false, false];
    let table_live = [false, false, true, true, false, false, false, false, false];
    for n in 0u8..=8 {
        assert_eq!(next_alive(false, n), table_dead[n as usize]);
        assert_eq!(next_alive(true, n), table_live[n as usize]);
    }
}

#[test]
fn rule_named_cases() {
    assert!(next_alive(true, 2));
    assert!(next_alive(false, 3));
    assert!(!next_alive(true, 4));
    assert!(!next_alive(false, 8));
    assert!(!next_alive(false, 2));
    assert!(next_alive(true, 3));
    assert!(!next_alive(true, 1));
    assert!(!next_alive(true, 0));
}

#[test]
fn rule_beyond_eight_neighbours_is_dead() {
    assert!(!next_alive(true, 9));
    assert!(!next_alive(false, 255));
}

#[test]
fn encoding_has_four_levels() {
    assert_eq!(encode(false, false), -85);
    assert_eq!(encode(false, true), 60);
    assert_eq!(encode(true, false), 15);
    assert_eq!(encode(true, true), 160);
}

#[test]
fn encoding_follows_the_formula() {
    for alive in [false, true] {
        for next in [false, true] {
            let a = if alive { 1.0f64 } else { 0.0 };
            let n = if next { 1.0f64 } else { 0.0 };
            let expected = a - 0.85 + 1.45 * n;
            let got = encode(alive, next) as f64 / LEVEL_UNIT as f64;
            assert!((got - expected).abs() < 1e-9);
        }
    }
}

#[test]
fn encoding_is_not_clamped() {
    assert!(encode(false, false) < 0);
    assert!(encode(true, true) > LEVEL_UNIT);
}

#[test]
fn storage_clamps_and_rounds() {
    assert_eq!(store(-85), 0);
    assert_eq!(store(0), 0);
    assert_eq!(store(15), 38);
    assert_eq!(store(50), 128);
    assert_eq!(store(60), 153);
    assert_eq!(store(100), 255);
    assert_eq!(store(160), 255);
    assert_eq!(store(i32::MIN), 0);
    assert_eq!(store(i32::MAX), 255);
}

#[test]
fn liveness_threshold_is_one_half() {
    assert!(!is_alive(0));
    assert!(!is_alive(38));
    assert!(!is_alive(127));
    assert!(is_alive(128));
    assert!(is_alive(153));
    assert!(is_alive(255));
}

#[test]
fn stored_levels_read_back_as_the_next_state() {
    for alive in [false, true] {
        for next in [false, true] {
            assert_eq!(is_alive(store(encode(alive, next))), next);
        }
    }
}

#[test]
fn evolve_gives_the_fade_levels() {
    assert_eq!(evolve(0, 0), 0);
    assert_eq!(evolve(0, 3), 153);
    assert_eq!(evolve(255, 1), 38);
    assert_eq!(evolve(255, 2), 255);
    assert_eq!(evolve(255, 3), 255);
    assert_eq!(evolve(153, 2), 255);
    assert_eq!(evolve(38, 2), 0);
    assert_eq!(evolve(200, 4), 38);
}
