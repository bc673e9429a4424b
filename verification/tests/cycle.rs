//! Cycle timing, ratios and easing.

use perlin_wave::constants::{FULL_CYCLE, SCALE, SCALE2};
use perlin_wave::cycle::{ease_in_out_quad, relative_pos_full, relative_pos_half, CycleClock};

#[test]
fn ratio_full_stays_in_unit_range() {
    for c in 0..=FULL_CYCLE {
        let r = relative_pos_full(c);
        assert!(0 <= r && r <= SCALE);
    }
}

#[test]
fn ratio_full_endpoints() {
    assert_eq!(relative_pos_full(0), 0);
    assert_eq!(relative_pos_full(10), SCALE / 2);
    assert_eq!(relative_pos_full(FULL_CYCLE), SCALE);
}

#[test]
fn ratio_full_is_linear() {
    for c in 0..=FULL_CYCLE {
        assert_eq!(relative_pos_full(c), c as i64 * (SCALE / FULL_CYCLE as i64));
    }
}

#[test]
fn ratio_half_is_triangular() {
    assert_eq!(relative_pos_half(0), 0);
    assert_eq!(relative_pos_half(5), SCALE / 2);
    assert_eq!(relative_pos_half(FULL_CYCLE / 2), SCALE);
    assert_eq!(relative_pos_half(15), SCALE / 2);
    assert_eq!(relative_pos_half(FULL_CYCLE), 0);
    for c in 0..=FULL_CYCLE {
        let r = relative_pos_half(c);
        assert!(0 <= r && r <= SCALE);
    }
    for c in 0..FULL_CYCLE / 2 {
        assert!(relative_pos_half(c) < relative_pos_half(c + 1));
    }
    for c in FULL_CYCLE / 2..FULL_CYCLE {
        assert!(relative_pos_half(c) > relative_pos_half(c + 1));
    }
}

#[test]
fn ease_fixes_zero_half_and_one() {
    assert_eq!(ease_in_out_quad(0), 0);
    assert_eq!(ease_in_out_quad(SCALE / 2), SCALE2 / 2);
    assert_eq!(ease_in_out_quad(SCALE), SCALE2);
}

#[test]
fn ease_quarter_point_exact() {
    // 2 * 0.25^2 == 0.125
    assert_eq!(ease_in_out_quad(SCALE / 4), SCALE2 / 8);
    // 0.75 * (4 - 1.5) - 1 == 0.875
    assert_eq!(ease_in_out_quad(3 * SCALE / 4), 7 * SCALE2 / 8);
}

#[test]
fn ease_strictly_increasing_on_both_halves() {
    let step = SCALE / 100;
    let mut v = 0;
    while v + step <= SCALE / 2 {
        assert!(ease_in_out_quad(v) < ease_in_out_quad(v + step));
        v += step;
    }
    let mut v = SCALE / 2;
    while v + step <= SCALE {
        assert!(ease_in_out_quad(v) < ease_in_out_quad(v + step));
        v += step;
    }
}

#[test]
fn clock_wraps_to_zero_after_full_cycle_plus_one() {
    let mut clock = CycleClock::new();
    let mut wraps = 0;
    for _ in 0..FULL_CYCLE + 1 {
        if clock.advance() {
            wraps += 1;
        }
    }
    assert_eq!(clock.counter(), 0);
    assert_eq!(wraps, 1);
}

#[test]
fn clock_visits_every_counter_in_order() {
    let mut clock = CycleClock::new();
    for expected in 1..=FULL_CYCLE {
        assert!(!clock.advance());
        assert_eq!(clock.counter(), expected);
    }
    assert!(clock.advance());
    assert_eq!(clock.counter(), 0);
}
