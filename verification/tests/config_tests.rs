use asus_touchpad_numpad::config::defaults::DefaultConfig;
use asus_touchpad_numpad::config::models::{BrightnessLevels, Config, Identify, Layout, Zone, Zones};
use asus_touchpad_numpad::config::parser::{ConfigError, Parser};

fn zone(x_min: f32, x_max: f32, y_min: f32, y_max: f32) -> Zone {
    Zone {
        x_min: x_min.to_bits(),
        x_max: x_max.to_bits(),
        y_min: y_min.to_bits(),
        y_max: y_max.to_bits(),
    }
}

fn layout(name: &str, keymap: Vec<Vec<&str>>) -> Layout {
    Layout {
        name: name.to_string(),
        cols: keymap.first().map_or(0, |r| r.len() as u8),
        rows: keymap.len() as u8,
        zones: Zones {
            numlock: zone(0.95, 1.0, 0.0, 0.09),
            brightness_calculator: zone(0.0, 0.06, 0.0, 0.07),
        },
        double_tap_delay_ms: 250,
        allow_calculator: true,
        top_offset: 0.1f32.to_bits(),
        keymap: keymap
            .into_iter()
            .map(|r| r.into_iter().map(|k| k.to_string()).collect())
            .collect(),
        brightness_levels: BrightnessLevels { low: 1, med: 24, high: 31 },
    }
}

fn config(layout_name: &str, layouts: Vec<Layout>) -> Config {
    Config {
        log_level: "info".to_string(),
        identify: Identify { max_attempts: 5, retry_delay_ms: 100 },
        layout_name: layout_name.to_string(),
        layouts,
    }
}

#[test]
fn layout_validate_resolves_names() {
    let l = layout("x", vec![vec!["KEY_KP7", "KEY_KP8"], vec!["KEY_KP0", "KEY_KPENTER"]]);
    let g = l.validate().unwrap();
    assert_eq!(
        g,
        vec![
            vec![evdev::KeyCode::KEY_KP7.code(), evdev::KeyCode::KEY_KP8.code()],
            vec![evdev::KeyCode::KEY_KP0.code(), evdev::KeyCode::KEY_KPENTER.code()],
        ]
    );
}

#[test]
fn layout_validate_reports_first_unknown_name() {
    let l = layout("x", vec![vec!["KEY_KP7", "KEY_NOPE"], vec!["KEY_BAD", "KEY_KP1"]]);
    match l.validate() {
        Err(ConfigError::UnknownKeyName { name, reason }) => {
            assert_eq!(name, "KEY_NOPE");
            assert_eq!(reason, "failed to parse Key from string");
        },
        other => panic!("unexpected {:?}", other),
    }
}

#[test]
fn config_validate_by_name() {
    let c = config("b", vec![layout("a", vec![vec!["KEY_KP1"]]), layout("b", vec![vec!["KEY_KP2"]])]);
    assert!(!c.needs_board_name());
    assert_eq!(c.validate(None).unwrap().name, "b");
    let missing = config("zz", vec![layout("a", vec![vec!["KEY_KP1"]])]);
    assert_eq!(missing.validate(None).unwrap_err(), ConfigError::LayoutNotFound("zz".to_string()));
    assert_eq!(
        missing.validate(None).unwrap_err().message(),
        "The name 'zz' was not found in the list of layouts"
    );
}

#[test]
fn config_validate_auto_uses_board_name() {
    let c = config("auto", vec![layout("a", vec![vec!["KEY_KP1"]]), layout("ux433fa", vec![vec!["KEY_KP2"]])]);
    assert!(c.needs_board_name());
    assert_eq!(c.validate(Some("ux433fa")).unwrap().name, "ux433fa");
    assert_eq!(c.validate(None).unwrap_err(), ConfigError::BoardNameUnavailable);
    assert_eq!(
        c.validate(Some("other")).unwrap_err(),
        ConfigError::LayoutNotFound("other".to_string())
    );
}

#[test]
fn config_resolve() {
    let c = config("a", vec![layout("a", vec![vec!["KEY_KP1", "KEY_KP2"]])]);
    let (id, l, keys) = c.resolve(None).unwrap();
    assert_eq!(l.name, "a");
    assert_eq!(id, Identify { max_attempts: 5, retry_delay_ms: 100 });
    assert_eq!(keys, vec![vec![evdev::KeyCode::KEY_KP1.code(), evdev::KeyCode::KEY_KP2.code()]]);
    let bad = config("a", vec![layout("a", vec![vec!["KP1"]])]);
    assert!(matches!(bad.resolve(None), Err(ConfigError::UnknownKeyName { .. })));
    let mut short = layout("a", vec![vec!["KEY_KP1"; 5]; 3]);
    short.rows = 4;
    let c = config("a", vec![short]);
    assert_eq!(c.resolve(None).unwrap_err(), ConfigError::GridMismatch { rows: 4, cols: 5 });
}

#[test]
fn grid_size_is_checked_when_resolving() {
    let mut l = layout("x", vec![vec!["KEY_KP7", "KEY_KP8"], vec!["KEY_KP0", "KEY_KPENTER"]]);
    l.rows = 3;
    // key names alone are what `Layout::validate` checks
    assert!(l.validate().is_ok());
    let e = l.check_grid().unwrap_err();
    assert_eq!(e, ConfigError::GridMismatch { rows: 3, cols: 2 });
    assert_eq!(e.message(), "The keymap is not a grid of 3 rows and 2 columns");
    assert_eq!(config("x", vec![l]).resolve(None).unwrap_err(), ConfigError::GridMismatch { rows: 3, cols: 2 });
    let mut ragged = layout("x", vec![vec!["KEY_KP7", "KEY_KP8"], vec!["KEY_KP0"]]);
    ragged.rows = 2;
    assert_eq!(ragged.check_grid().unwrap_err(), ConfigError::GridMismatch { rows: 2, cols: 2 });
    // a wrong size is reported before an unknown name
    let mut both = layout("x", vec![vec!["KEY_NOPE"]]);
    both.cols = 2;
    assert_eq!(config("x", vec![both]).resolve(None).unwrap_err(), ConfigError::GridMismatch { rows: 1, cols: 2 });
    assert!(layout("x", vec![vec!["KEY_KP1"; 2]; 2]).check_grid().is_ok());
}
