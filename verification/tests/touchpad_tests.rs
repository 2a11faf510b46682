use asus_touchpad_numpad::config::models::{BrightnessLevels, Layout, Zone, Zones};
use asus_touchpad_numpad::sys::keyboard::KeyboardLayout;
use asus_touchpad_numpad::sys::touchpad::{
    backlight_command, classify_event, Action, Brightness, EventKind, NumpadState, TouchEvent,
    TouchTarget, Touchpad, TouchpadError,
};

const MS: u64 = 1_000_000;

fn layout(allow_calculator: bool) -> Layout {
    let z = Zone { x_min: 0, x_max: 0, y_min: 0, y_max: 0 };
    Layout {
        name: "test".to_string(),
        cols: 2,
        rows: 2,
        zones: Zones { numlock: z, brightness_calculator: z },
        double_tap_delay_ms: 250,
        allow_calculator,
        top_offset: 0,
        keymap: vec![
            vec!["KEY_KP1".to_string(), "KEY_5".to_string()],
            vec!["KEY_KP0".to_string(), "KEY_KPENTER".to_string()],
        ],
        brightness_levels: BrightnessLevels { low: 1, med: 24, high: 31 },
    }
}

fn ready(kb: KeyboardLayout, allow_calculator: bool) -> (Touchpad, Vec<Vec<u16>>) {
    let l = layout(allow_calculator);
    let keys = l.validate().unwrap();
    let mut t = Touchpad::new(3, "event5", &l);
    t.apply_keyboard_layout(&kb).unwrap();
    t.finish_open(1000, 800);
    t.capabilities(&keys).unwrap();
    t.mark_registered();
    (t, keys)
}

fn down(target: TouchTarget) -> TouchEvent {
    TouchEvent::Finger { value: 1, target }
}

fn up() -> TouchEvent {
    TouchEvent::Finger { value: 0, target: TouchTarget::Reserved }
}

#[test]
fn new_touchpad_state() {
    let t = Touchpad::new(3, "event5", &layout(true));
    assert_eq!(t.bus(), 3);
    assert_eq!(t.event(), "event5");
    assert_eq!(t.max_x(), 0);
    assert_eq!(t.percentage_key(), 6);
    assert!(!t.is_opened());
    assert!(!t.is_registered());
    assert_eq!(t.layout().name, "test");
    assert_eq!(t.device_path(), "/dev/input/event5");
    assert_eq!(t.i2c_path(), "/dev/i2c-3");
    assert_eq!(Touchpad::new(-1, "e", &layout(true)).i2c_path(), "/dev/i2c--1");
}

#[test]
fn setup_errors() {
    let l = layout(true);
    let mut t = Touchpad::new(3, "event5", &l);
    assert_eq!(t.check_ready(), Err(TouchpadError::NotOpen));
    assert_eq!(t.capabilities(&vec![]), Err(TouchpadError::NotOpen));
    let err = t.apply_keyboard_layout(&KeyboardLayout::Unknown("xx".to_string())).unwrap_err();
    assert_eq!(err, TouchpadError::UnknownKeyboardLayout("xx".to_string()));
    assert_eq!(err.message(), "Unspecified keyboad layout: 'xx'");
    t.finish_open(10, 10);
    assert_eq!(t.check_ready(), Err(TouchpadError::NotRegistered));
    assert_eq!(TouchpadError::NotRegistered.message(), "The touchpad is not registered!");
    assert_eq!(TouchpadError::NotOpen.message(), "The touchpad is not open!");
    t.mark_registered();
    assert_eq!(t.check_ready(), Ok(()));
}

#[test]
fn capabilities_of_qwerty_and_azerty() {
    let (t, keys) = ready(KeyboardLayout::Qwerty, true);
    let mut c = t.capabilities(&keys).unwrap();
    c.sort();
    let mut want = vec![42, 69, 140, 79, 6, 82, 96];
    want.sort();
    assert_eq!(c, want);
    let (t, keys) = ready(KeyboardLayout::Azerty, true);
    assert_eq!(t.percentage_key(), 40);
    let mut c = t.capabilities(&keys).unwrap();
    c.sort();
    let mut want = vec![42, 69, 140, 79, 6, 82, 96, 40];
    want.sort();
    assert_eq!(c, want);
}

#[test]
fn single_tap_with_numlock_off_is_ignored() {
    let (t, keys) = ready(KeyboardLayout::Qwerty, true);
    let mut s = NumpadState::new(0);
    let a = t.handle_event(&mut s, &keys, down(TouchTarget::NumlockZone), 1000 * MS);
    assert_eq!(a, Action::Nothing);
    assert!(!s.numlock);
    assert_eq!(s.last_down_ns, 1000 * MS);
}

#[test]
fn double_tap_turns_numlock_on_and_tap_turns_it_off() {
    let (t, keys) = ready(KeyboardLayout::Qwerty, true);
    let mut s = NumpadState::new(0);
    assert_eq!(t.handle_event(&mut s, &keys, down(TouchTarget::NumlockZone), 1000 * MS), Action::Nothing);
    assert_eq!(t.handle_event(&mut s, &keys, up(), 1050 * MS), Action::Nothing);
    let a = t.handle_event(&mut s, &keys, down(TouchTarget::NumlockZone), 1100 * MS);
    assert_eq!(a, Action::ActivateNumlock { level: 31 });
    assert!(s.numlock);
    assert_eq!(s.brightness, Brightness::High);
    t.handle_event(&mut s, &keys, up(), 1150 * MS);
    let a = t.handle_event(&mut s, &keys, down(TouchTarget::NumlockZone), 5000 * MS);
    assert_eq!(a, Action::DeactivateNumlock);
    assert!(!s.numlock);
}

#[test]
fn key_press_and_release() {
    let (t, keys) = ready(KeyboardLayout::Azerty, true);
    let mut s = NumpadState::new(0);
    s.numlock = true;
    assert_eq!(t.handle_event(&mut s, &keys, TouchEvent::PositionX(120), 10 * MS), Action::Nothing);
    assert_eq!(t.handle_event(&mut s, &keys, TouchEvent::PositionY(700), 10 * MS), Action::Nothing);
    assert_eq!((s.x, s.y), (120, 700));
    let a = t.handle_event(&mut s, &keys, down(TouchTarget::Cell { row: 1, col: 1 }), 1000 * MS);
    assert_eq!(a, Action::PressKey { key: 96, shift: false });
    // a second finger-down while the key is held is ignored
    let before = s;
    let a = t.handle_event(&mut s, &keys, down(TouchTarget::NumlockZone), 1100 * MS);
    assert_eq!(a, Action::Nothing);
    assert_eq!(s, before);
    assert_eq!(t.handle_event(&mut s, &keys, up(), 1200 * MS), Action::ReleaseKey { key: 96 });
    assert_eq!(s.pressed, None);
    assert_eq!(t.handle_event(&mut s, &keys, up(), 1300 * MS), Action::Nothing);
}

#[test]
fn five_key_is_the_percentage_key() {
    let (t, keys) = ready(KeyboardLayout::Azerty, true);
    let mut s = NumpadState::new(0);
    s.numlock = true;
    let a = t.handle_event(&mut s, &keys, down(TouchTarget::Cell { row: 0, col: 1 }), 1000 * MS);
    assert_eq!(a, Action::PressKey { key: 40, shift: true });
    let (t, keys) = ready(KeyboardLayout::Qwerty, true);
    let mut s = NumpadState::new(0);
    s.numlock = true;
    let a = t.handle_event(&mut s, &keys, down(TouchTarget::Cell { row: 0, col: 1 }), 1000 * MS);
    assert_eq!(a, Action::PressKey { key: 6, shift: true });
}

#[test]
fn outside_cells_and_reserved_strip() {
    let (t, keys) = ready(KeyboardLayout::Qwerty, true);
    let mut s = NumpadState::new(0);
    s.numlock = true;
    assert_eq!(t.handle_event(&mut s, &keys, down(TouchTarget::Cell { row: 2, col: 0 }), 1000 * MS), Action::Nothing);
    assert_eq!(t.handle_event(&mut s, &keys, down(TouchTarget::Cell { row: 0, col: 9 }), 2000 * MS), Action::Nothing);
    assert_eq!(t.handle_event(&mut s, &keys, down(TouchTarget::Reserved), 3000 * MS), Action::Nothing);
    assert_eq!(s.pressed, None);
}

#[test]
fn brightness_cycle_and_calculator() {
    let (t, keys) = ready(KeyboardLayout::Qwerty, true);
    let mut s = NumpadState::new(0);
    s.numlock = true;
    s.brightness = Brightness::High;
    let mut levels = vec![];
    for k in 1..=4u64 {
        match t.handle_event(&mut s, &keys, down(TouchTarget::BrightnessZone), k * 1000 * MS) {
            Action::ChangeBrightness { level } => levels.push(level),
            other => panic!("unexpected {:?}", other),
        }
        t.handle_event(&mut s, &keys, up(), k * 1000 * MS + 10);
    }
    assert_eq!(levels, vec![1, 24, 31, 1]);
    // numlock off: a double tap on the zone launches the calculator
    let mut s = NumpadState::new(0);
    t.handle_event(&mut s, &keys, down(TouchTarget::BrightnessZone), 1000 * MS);
    let a = t.handle_event(&mut s, &keys, down(TouchTarget::BrightnessZone), 1100 * MS);
    assert_eq!(a, Action::LaunchCalculator);
    let (t, keys) = ready(KeyboardLayout::Qwerty, false);
    let mut s = NumpadState::new(0);
    t.handle_event(&mut s, &keys, down(TouchTarget::BrightnessZone), 1000 * MS);
    let a = t.handle_event(&mut s, &keys, down(TouchTarget::BrightnessZone), 1100 * MS);
    assert_eq!(a, Action::Nothing);
}

#[test]
fn first_tap_soon_after_start_is_a_double_tap() {
    let (t, keys) = ready(KeyboardLayout::Qwerty, true);
    let mut s = NumpadState::new(1000 * MS);
    let a = t.handle_event(&mut s, &keys, down(TouchTarget::NumlockZone), 1100 * MS);
    assert_eq!(a, Action::ActivateNumlock { level: 31 });
}

#[test]
fn brightness_values() {
    let (t, _) = ready(KeyboardLayout::Qwerty, true);
    assert_eq!(t.brightness_to_u8(&Brightness::Off), 0);
    assert_eq!(t.brightness_to_u8(&Brightness::Low), 1);
    assert_eq!(t.brightness_to_u8(&Brightness::Medium), 24);
    assert_eq!(t.brightness_to_u8(&Brightness::High), 31);
    let mut b = Brightness::Off;
    let cmd = t.change_brightness(&mut b);
    assert_eq!(b, Brightness::Low);
    assert_eq!(cmd[11], 1);
    assert_eq!(Brightness::Medium.next(), Brightness::High);
    assert_eq!(Brightness::High.to_string(), "High");
    assert_eq!(Brightness::Off.to_string(), "Off");
    assert_eq!(
        backlight_command(24),
        vec![0x05, 0x00, 0x3d, 0x03, 0x06, 0x00, 0x07, 0x00, 0x0d, 0x14, 0x03, 24, 0xad]
    );
}

#[test]
fn event_kinds() {
    assert_eq!(classify_event(3, 0x35), EventKind::PositionX);
    assert_eq!(classify_event(3, 0x36), EventKind::PositionY);
    assert_eq!(classify_event(1, 0x145), EventKind::Finger);
    assert_eq!(classify_event(1, 0x35), EventKind::Ignored);
    assert_eq!(classify_event(0, 0), EventKind::Ignored);
}

#[test]
fn zero_delay_disables_double_tap() {
    let mut l = layout(true);
    l.double_tap_delay_ms = 0;
    let keys = l.validate().unwrap();
    let mut t = Touchpad::new(3, "event5", &l);
    t.apply_keyboard_layout(&KeyboardLayout::Qwerty).unwrap();
    t.finish_open(1000, 800);
    t.mark_registered();
    let mut s = NumpadState::new(0);
    for k in 0..4u64 {
        let a = t.handle_event(&mut s, &keys, down(TouchTarget::NumlockZone), k);
        assert_eq!(a, Action::Nothing);
        assert!(!s.numlock);
    }
}

#[test]
fn pressed_keys_are_registered() {
    for kb in [KeyboardLayout::Qwerty, KeyboardLayout::Azerty] {
        let (t, keys) = ready(kb, true);
        let caps = t.capabilities(&keys).unwrap();
        for row in 0..2 {
            for col in 0..2 {
                let mut s = NumpadState::new(0);
                s.numlock = true;
                match t.handle_event(&mut s, &keys, down(TouchTarget::Cell { row, col }), 1000 * MS) {
                    Action::PressKey { key, .. } => assert!(caps.contains(&key)),
                    other => panic!("unexpected {:?}", other),
                }
            }
        }
    }
}

#[test]
fn double_tap_does_one_action_then_lone_taps_are_ignored() {
    let (t, keys) = ready(KeyboardLayout::Qwerty, true);
    let mut s = NumpadState::new(0);
    assert_eq!(t.handle_event(&mut s, &keys, down(TouchTarget::BrightnessZone), 1000 * MS), Action::Nothing);
    assert_eq!(t.handle_event(&mut s, &keys, up(), 1050 * MS), Action::Nothing);
    let a = t.handle_event(&mut s, &keys, down(TouchTarget::BrightnessZone), 1100 * MS);
    assert_eq!(a, Action::LaunchCalculator);
    assert!(!s.mode_enabled);
    assert!(!s.numlock);
    t.handle_event(&mut s, &keys, up(), 1150 * MS);
    let a = t.handle_event(&mut s, &keys, down(TouchTarget::BrightnessZone), 2000 * MS);
    assert_eq!(a, Action::Nothing);
    // a double tap on a grid cell with Num Lock off presses nothing
    let mut s = NumpadState::new(0);
    t.handle_event(&mut s, &keys, down(TouchTarget::Cell { row: 0, col: 0 }), 1000 * MS);
    let a = t.handle_event(&mut s, &keys, down(TouchTarget::Cell { row: 0, col: 0 }), 1100 * MS);
    assert_eq!(a, Action::Nothing);
    assert_eq!(s.pressed, None);
}
