//! Configuration lookup, validation and error reporting.

use perlin_wave::app::App;
use perlin_wave::constants::SCALE;
use perlin_wave::types::{Config, ConfigError, PanelSettings};

fn settings(pairs: &[(&str, &str)]) -> PanelSettings {
    PanelSettings {
        entries: pairs.iter().map(|(k, v)| (k.to_string(), v.to_string())).collect(),
    }
}

fn wave_settings() -> PanelSettings {
    settings(&[("id", "wave"), ("width", "550"), ("height", "180"), ("color", "#fff")])
}

fn control_settings() -> PanelSettings {
    settings(&[("id", "control"), ("width", "550"), ("height", "36"), ("color", "#0f0")])
}

fn config(panels: Vec<PanelSettings>) -> Config {
    Config { bgcolor: "#222".to_string(), panels }
}

fn expect_err(r: Result<App, perlin_wave::types::ConfigError>) -> perlin_wave::types::ConfigError {
    match r {
        Err(e) => e,
        Ok(_) => panic!("expected a configuration error"),
    }
}

#[test]
fn ok_returns_first_occurrence() {
    let s = settings(&[("id", "wave"), ("id", "control")]);
    assert_eq!(s.ok("id"), Ok("wave".to_string()));
}

#[test]
fn ok_reports_missing_field() {
    let s = settings(&[("width", "550")]);
    let err = s.ok("id").unwrap_err();
    assert_eq!(err, ConfigError::MissingField { key: "id".to_string() });
    assert_eq!(err.message(), "Failed to get: id");
}

#[test]
fn ok_px_parses_dimension() {
    let s = wave_settings();
    assert_eq!(s.ok_px("width"), Ok(550 * SCALE));
}

#[test]
fn ok_px_reports_invalid_number() {
    let s = settings(&[("width", "wide")]);
    let err = s.ok_px("width").unwrap_err();
    assert_eq!(err, ConfigError::InvalidNumber { key: "width".to_string() });
    assert_eq!(err.message(), "Failed to parse: width");
}

#[test]
fn app_new_builds_all_panels() {
    let app = App::new(&config(vec![wave_settings(), control_settings()])).unwrap();
    assert_eq!(app.panels.len(), 2);
    assert!(app.points.is_empty());
    assert!(app.points_prev.is_empty());
}

#[test]
fn app_new_rejects_unknown_panel() {
    let bad = settings(&[("id", "sonar"), ("width", "550"), ("height", "180"), ("color", "#fff")]);
    let err = expect_err(App::new(&config(vec![wave_settings(), bad])));
    assert_eq!(err, ConfigError::UnknownPanel { id: "sonar".to_string() });
    assert_eq!(err.message(), "No such panel: sonar");
}

#[test]
fn app_new_rejects_missing_color() {
    let bad = settings(&[("id", "wave"), ("width", "550"), ("height", "180")]);
    let err = expect_err(App::new(&config(vec![bad])));
    assert_eq!(err, ConfigError::MissingField { key: "color".to_string() });
}

#[test]
fn app_new_rejects_zero_height() {
    let bad = settings(&[("id", "wave"), ("width", "550"), ("height", "0"), ("color", "#fff")]);
    let err = expect_err(App::new(&config(vec![bad])));
    assert_eq!(err, ConfigError::InvalidNumber { key: "height".to_string() });
}

#[test]
fn app_new_reports_first_failing_panel() {
    let bad = settings(&[("id", "wave"), ("width", "x"), ("height", "180"), ("color", "#fff")]);
    let err = expect_err(App::new(&config(vec![wave_settings(), bad, control_settings()])));
    assert_eq!(err, ConfigError::InvalidNumber { key: "width".to_string() });
}
