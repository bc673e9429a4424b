//! Point-set generation.

use perlin_wave::constants::{NORMAL_WIDTH, SCALE, SEGMENTS};
use perlin_wave::points::{generate, random_offset, sample_xs, zero_points};
use perlin_wave::types::Point;

fn sample_ys() -> Vec<i64> {
    (0..SEGMENTS).map(|i| ((i as i64) % 21 - 10) * 100_000).collect()
}

#[test]
fn generate_is_length_stable() {
    for count in [1usize, 2, 44, SEGMENTS] {
        let ys = vec![0i64; count];
        let points = generate(count, NORMAL_WIDTH, &ys);
        assert_eq!(points.len(), count);
    }
}

#[test]
fn sample_xs_monotone_in_index_order() {
    let xs = sample_xs(SEGMENTS, NORMAL_WIDTH);
    assert_eq!(xs.len(), SEGMENTS);
    for i in 1..xs.len() {
        assert!(xs[i - 1] <= xs[i]);
    }
}

#[test]
fn sample_xs_exact_positions() {
    let xs = sample_xs(SEGMENTS, NORMAL_WIDTH);
    assert_eq!(xs[0], 0);
    // index 55 of 110 is exactly half the span
    assert_eq!(xs[55], NORMAL_WIDTH / 2);
    // index 109: ratio floor(109_000_000 / 110) == 990_909
    assert_eq!(xs[109], 550 * 990_909);
}

#[test]
fn sample_xs_zero_span_collapses() {
    let xs = sample_xs(SEGMENTS, 0);
    for x in xs {
        assert_eq!(x, 0);
    }
}

#[test]
fn generate_carries_noise_values_through() {
    let ys = sample_ys();
    let points = generate(SEGMENTS, NORMAL_WIDTH, &ys);
    let xs = sample_xs(SEGMENTS, NORMAL_WIDTH);
    for i in 0..SEGMENTS {
        assert_eq!(points[i].x, xs[i]);
        assert_eq!(points[i].y, ys[i]);
    }
}

#[test]
fn zero_points_are_all_zero() {
    let points = zero_points(SEGMENTS);
    assert_eq!(points.len(), SEGMENTS);
    for p in points {
        assert_eq!(p, Point { x: 0, y: 0 });
    }
}

#[test]
fn random_offset_stays_below_ten() {
    for _ in 0..200 {
        assert!(random_offset() < 10);
    }
}

#[test]
fn normalize_maps_unit_range() {
    let low = Point { x: 0, y: -SCALE };
    let n = low.normalize();
    assert_eq!(n.y, 0);
    assert_eq!(n.x, SCALE / 2);
    let high = Point { x: 0, y: SCALE };
    assert_eq!(high.normalize().y, SCALE);
    let mid = Point { x: 0, y: 0 };
    assert_eq!(mid.normalize().y, SCALE / 2);
}
