//! The three render paths and the readout, on exact fixed-point values.

use perlin_wave::commands::DrawCmd;
use perlin_wave::constants::{SCALE, SEGMENTS};
use perlin_wave::graphics::{solar_bar_count, ControlGraphics, SolarInfo, WaveGraphics};
use perlin_wave::points::{generate, zero_points};
use perlin_wave::types::Point;

fn full_points(y: i64) -> Vec<Point> {
    let ys = vec![y; SEGMENTS];
    generate(SEGMENTS, perlin_wave::constants::NORMAL_WIDTH, &ys)
}

#[test]
fn bars_interpolate_linearly_at_midpoint() {
    let g = WaveGraphics::new(550 * SCALE, 1000 * SCALE, "#222", "#fff");
    let amplify = g.amplify_value();
    assert_eq!(amplify, 200 * SCALE);
    let points = vec![Point { x: 0, y: 800_000 }];
    let prev = vec![Point { x: 0, y: 200_000 }];
    // counter 10 of 20: ratio_full is exactly one half
    let cmds = g.render_bars(&points, &prev, 10);
    assert_eq!(cmds.len(), 5);
    match &cmds[2] {
        DrawCmd::FillRect { x, y, w, h } => {
            assert_eq!(*x, 0);
            assert_eq!(*y, 500 * SCALE);
            // 550 px / 110 segments - 2 px
            assert_eq!(*w, 3 * SCALE);
            // lerp(0.2, 0.8, 0.5) == 0.5, so half-height is amplify * 0.5
            assert_eq!(*h, amplify / 2);
        },
        other => panic!("expected an upper bar rect, got {:?}", other),
    }
    match &cmds[3] {
        DrawCmd::FillRect { h, .. } => assert_eq!(*h, -(amplify / 2)),
        other => panic!("expected a lower bar rect, got {:?}", other),
    }
}

#[test]
fn solar_bar_count_is_two_fifths_of_segments() {
    assert_eq!(solar_bar_count(), 44);
}

#[test]
fn solar_angle_step_sweeps_full_circle() {
    let sol = SolarInfo::new(550 * SCALE, solar_bar_count());
    let (num, den) = sol.angle_step();
    assert_eq!((num, den), (360, 44));
    // 360 / 44 is about 8.1818 degrees
    assert_eq!(num * 10_000 / den, 81_818);
    // 44 steps of 360/44 degrees add up to exactly 360 degrees
    assert_eq!(den * num / den, 360);
}

#[test]
fn solar_rotates_each_bar_to_its_own_angle() {
    let g = WaveGraphics::new(550 * SCALE, 550 * SCALE, "#222", "#fff");
    let n = g.solar_info.num_of_bars;
    assert_eq!(n, 44);
    let points = full_points(500_000);
    let prev = zero_points(SEGMENTS);
    let cmds = g.render_solar(&points, &prev, 0);
    assert_eq!(cmds.len() as i64, 4 * n + 4);
    for i in 0..n {
        match &cmds[(4 + 4 * i) as usize] {
            DrawCmd::Rotate { deg_num, deg_den } => {
                assert_eq!(*deg_num, i * 360);
                assert_eq!(*deg_den, 44);
            },
            other => panic!("expected a rotation, got {:?}", other),
        }
    }
    match &cmds[2] {
        DrawCmd::Translate { x, y } => {
            assert_eq!(*x, 275 * SCALE);
            assert_eq!(*y, 275 * SCALE);
        },
        other => panic!("expected the center translation, got {:?}", other),
    }
    assert_eq!(cmds[cmds.len() - 1], DrawCmd::Restore);
}

#[test]
fn radio_anchors_both_ends_at_the_center_line() {
    let g = WaveGraphics::new(550 * SCALE, 550 * SCALE, "#222", "#fff");
    let points = full_points(1_000_000);
    let cmds = g.render_radio(&points, 5);
    assert_eq!(cmds.len(), SEGMENTS + 7);
    assert_eq!(cmds[0], DrawCmd::Save);
    assert_eq!(cmds[3], DrawCmd::MoveTo { x: 0, y: 275 * SCALE });
    assert_eq!(cmds[SEGMENTS + 4], DrawCmd::LineTo { x: 550 * SCALE, y: 275 * SCALE });
    assert_eq!(cmds[SEGMENTS + 5], DrawCmd::Stroke);
    assert_eq!(cmds[SEGMENTS + 6], DrawCmd::Restore);
}

#[test]
fn radio_eases_amplitude_at_quarter_cycle() {
    let g = WaveGraphics::new(550 * SCALE, 550 * SCALE, "#222", "#fff");
    let points = full_points(1_000_000);
    // counter 5 of 20: half-ratio 0.5, eased to 0.5
    let cmds = g.render_radio(&points, 5);
    // first point: x == 0, y == 0.5 * amplify + half height
    let amplify = g.amplify_value();
    assert_eq!(cmds[4], DrawCmd::LineTo { x: 0, y: amplify / 2 + 275 * SCALE });
}

#[test]
fn control_prints_first_amplitude_times_ten() {
    let g = ControlGraphics::new(550 * SCALE, 20 * SCALE, "#222", "#0f0");
    assert_eq!(g.font_px, 16);
    assert_eq!(g.font, "16px serif");
    let points = vec![Point { x: 0, y: -200_000 }];
    let cmds = g.render_control(&points);
    assert_eq!(cmds.len(), 5);
    match &cmds[3] {
        DrawCmd::FillText { text, x, y } => {
            assert_eq!(text, "2.00000");
            assert_eq!(*x, 5 * SCALE);
            assert_eq!(*y, 16 * SCALE);
        },
        other => panic!("expected the readout text, got {:?}", other),
    }
}

#[test]
fn clear_repaints_the_background() {
    let g = WaveGraphics::new(550 * SCALE, 180 * SCALE, "#222", "#fff");
    let cmds = g.clear();
    assert_eq!(
        cmds,
        vec![
            DrawCmd::ClearRect { x: 0, y: 0, w: 550 * SCALE, h: 180 * SCALE },
            DrawCmd::SetFillColor { color: "#222".to_string() },
            DrawCmd::FillRect { x: 0, y: 0, w: 550 * SCALE, h: 180 * SCALE },
        ]
    );
}
