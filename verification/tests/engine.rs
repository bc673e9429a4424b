//! The frame loop: double buffering, regeneration and mode toggling.

use perlin_wave::app::App;
use perlin_wave::constants::{FULL_CYCLE, SCALE, SEGMENTS};
use perlin_wave::cycle::CycleClock;
use perlin_wave::panels::{GraphType, Panel};
use perlin_wave::types::{Config, PanelSettings};

fn test_config() -> Config {
    let wave = PanelSettings {
        entries: vec![
            ("id".to_string(), "wave".to_string()),
            ("width".to_string(), "550".to_string()),
            ("height".to_string(), "180".to_string()),
            ("color".to_string(), "#fff".to_string()),
        ],
    };
    let control = PanelSettings {
        entries: vec![
            ("id".to_string(), "control".to_string()),
            ("width".to_string(), "550".to_string()),
            ("height".to_string(), "36".to_string()),
            ("color".to_string(), "#0f0".to_string()),
        ],
    };
    Config { bgcolor: "#222".to_string(), panels: vec![wave, control] }
}

fn noise_like(seed: i64) -> Vec<i64> {
    (0..SEGMENTS).map(|i| ((i as i64 * 37 + seed) % 21 - 10) * 100_000).collect()
}

#[test]
fn one_cycle_regenerates_once_and_draws_every_frame() {
    let mut app = App::new(&test_config()).unwrap();
    let mut clock = CycleClock::new();
    let mut regenerations = 0;
    let mut draws = 0;
    let mut snapshot = Vec::new();
    // stepping the clock from counter 0 through counter 20
    for step in 0..=FULL_CYCLE {
        if clock.counter() == 0 {
            app.reset(&noise_like(step as i64));
            regenerations += 1;
            snapshot = app.points.clone();
        }
        let frames = app.draw(clock.counter());
        assert_eq!(frames.len(), 2);
        // every draw of the cycle uses the same current set
        assert_eq!(app.points, snapshot);
        draws += 1;
        clock.advance();
    }
    assert_eq!(regenerations, 1);
    assert_eq!(draws, FULL_CYCLE + 1);
    // the next step wraps and triggers the second regeneration
    assert_eq!(clock.counter(), 0);
}

#[test]
fn reset_archives_the_previous_cycle() {
    let mut app = App::new(&test_config()).unwrap();
    let first = noise_like(1);
    app.reset(&first);
    // before any completed cycle the previous set is all zeros
    assert_eq!(app.points_prev.len(), SEGMENTS);
    assert!(app.points_prev.iter().all(|p| p.x == 0 && p.y == 0));
    let kept = app.points.clone();
    let second = noise_like(2);
    app.reset(&second);
    // the archived set is exactly the prior current set
    assert_eq!(app.points_prev, kept);
    for i in 0..SEGMENTS {
        assert_eq!(app.points[i].y, second[i]);
    }
}

#[test]
fn toggle_cycles_through_all_modes_and_back() {
    let mut app = App::new(&test_config()).unwrap();
    let mode_of = |app: &App| match &app.panels[0] {
        Panel::Wave(p) => p.graph_type,
        Panel::Control(_) => panic!("panel 0 should be the wave panel"),
    };
    assert_eq!(mode_of(&app), GraphType::Radio);
    app.toggle(0);
    assert_eq!(mode_of(&app), GraphType::Bars);
    app.toggle(0);
    assert_eq!(mode_of(&app), GraphType::Solar);
    app.toggle(0);
    assert_eq!(mode_of(&app), GraphType::Radio);
}

#[test]
fn toggle_changes_the_rendered_frame_shape() {
    let mut app = App::new(&test_config()).unwrap();
    app.reset(&noise_like(3));
    // clear takes 3 commands; the mode's frame follows
    let radio = app.draw(0);
    assert_eq!(radio[0].len(), 3 + SEGMENTS + 7);
    app.toggle(0);
    let bars = app.draw(0);
    assert_eq!(bars[0].len(), 3 + 2 * SEGMENTS + 3);
    app.toggle(0);
    let solar = app.draw(0);
    assert_eq!(solar[0].len(), 3 + 4 * 44 + 4);
    // the control panel readout is unaffected by the wave mode
    assert_eq!(solar[1].len(), 3 + 5);
}

#[test]
fn toggle_leaves_the_control_panel_alone() {
    let mut app = App::new(&test_config()).unwrap();
    app.toggle(1);
    assert!(matches!(app.panels[1], Panel::Control(_)));
}

#[test]
fn reset_panel_reapplies_measured_size() {
    let mut app = App::new(&test_config()).unwrap();
    app.reset_panel(0, 720 * SCALE, 240 * SCALE);
    match &app.panels[0] {
        Panel::Wave(p) => {
            assert_eq!(p.g.width, 720 * SCALE);
            assert_eq!(p.g.height, 240 * SCALE);
            assert_eq!(p.g.color, "#fff");
            assert_eq!(p.graph_type, GraphType::Radio);
        },
        Panel::Control(_) => panic!("panel 0 should be the wave panel"),
    }
    app.reset_panel(1, 720 * SCALE, 48 * SCALE);
    match &app.panels[1] {
        Panel::Control(p) => {
            assert_eq!(p.g.width, 720 * SCALE);
            assert_eq!(p.g.height, 48 * SCALE);
            // the font keeps its construction-time size (36 px * 0.8)
            assert_eq!(p.g.font_px, 28);
        },
        Panel::Wave(_) => panic!("panel 1 should be the control panel"),
    }
}

#[test]
fn graph_type_toggle_has_period_three() {
    for start in [GraphType::Radio, GraphType::Bars, GraphType::Solar] {
        let once = start.toggle();
        let twice = once.toggle();
        let thrice = twice.toggle();
        assert_ne!(once, start);
        assert_ne!(twice, start);
        assert_ne!(twice, once);
        assert_eq!(thrice, start);
    }
}
