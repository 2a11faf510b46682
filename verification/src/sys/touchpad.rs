//! The touchpad acting as a numpad: its setup state, and the decisions of the
//! event loop as a state machine from touch events to actions.
use crate::config::models::{BrightnessLevels, Layout, LayoutView};
use crate::sys::codes::{
    abs_mt_position_x, abs_mt_position_y, btn_tool_finger, ev_absolute, ev_key, key_5,
    key_apostrophe, key_calc, key_leftshift, key_numlock,
};
use crate::sys::keyboard::KeyboardLayout;
use crate::text::{
    decimal_i32, int_decimal, lemma_parse_decimal_roundtrip, seq_parse_i32, string_of,
};
use vstd::prelude::*;

verus! {

/// Represents the backlight brightness level of the numpad overlay.
#[derive(Debug, PartialEq, Eq, Structural, Clone, Copy)]
pub enum Brightness {
    /// Backlight is turned off (numlock disabled or initial state).
    Off,
    /// Low brightness level.
    Low,
    /// Medium brightness level.
    Medium,
    /// High brightness level.
    High,
}

/// The next level of the brightness cycle: `Off` | `High` → `Low` → `Medium` → `High`.
pub open spec fn next_brightness(b: Brightness) -> Brightness {
    match b {
        Brightness::Off => Brightness::Low,
        Brightness::High => Brightness::Low,
        Brightness::Low => Brightness::Medium,
        Brightness::Medium => Brightness::High,
    }
}

/// The raw value of a brightness level in the layout's levels; `0` for `Off`.
pub open spec fn level_value(levels: BrightnessLevels, b: Brightness) -> u8 {
    match b {
        Brightness::Off => 0,
        Brightness::Low => levels.low,
        Brightness::Medium => levels.med,
        Brightness::High => levels.high,
    }
}

impl Brightness {
    /// The level's name: `"Off"`, `"Low"`, `"Medium"` or `"High"`.
    pub fn to_string(&self) -> (s: String)
        ensures
            s@ == match *self {
                Brightness::Off => "Off"@,
                Brightness::Low => "Low"@,
                Brightness::Medium => "Medium"@,
                Brightness::High => "High"@,
            },
    {
        match self {
            Brightness::Off => String::from_str("Off"),
            Brightness::Low => String::from_str("Low"),
            Brightness::Medium => String::from_str("Medium"),
            Brightness::High => String::from_str("High"),
        }
    }

    /// The next level of the brightness cycle.
    pub fn next(&self) -> (r: Brightness)
        ensures
            r == next_brightness(*self),
    {
        match self {
            Brightness::Off | Brightness::High => Brightness::Low,
            Brightness::Low => Brightness::Medium,
            Brightness::Medium => Brightness::High,
        }
    }
}

/// The I2C command that sets the numpad backlight to the raw value `level`
/// (`0` turns it off).
pub open spec fn backlight_bytes(level: u8) -> Seq<u8> {
    seq![0x05u8, 0x00, 0x3d, 0x03, 0x06, 0x00, 0x07, 0x00, 0x0d, 0x14, 0x03, level, 0xad]
}

/// The I2C command that sets the numpad backlight to the raw value `level`.
pub fn backlight_command(level: u8) -> (cmd: Vec<u8>)
    ensures
        cmd@ == backlight_bytes(level),
{
    let cmd: Vec<u8> = vec![0x05u8, 0x00, 0x3d, 0x03, 0x06, 0x00, 0x07, 0x00, 0x0d, 0x14, 0x03, level, 0xad];
    assert(cmd@ =~= backlight_bytes(level));
    cmd
}

/// What a raw input event is, for the numpad.
#[derive(Debug, PartialEq, Eq, Structural, Clone, Copy)]
pub enum EventKind {
    /// `ABS_MT_POSITION_X`: the finger's X coordinate.
    PositionX,
    /// `ABS_MT_POSITION_Y`: the finger's Y coordinate.
    PositionY,
    /// `BTN_TOOL_FINGER`: a finger placed (1) or lifted (0).
    Finger,
    /// Anything else, which the numpad ignores.
    Ignored,
}

/// The kind of the raw event with this type and code.
pub open spec fn event_kind(ev_type: u16, code: u16) -> EventKind {
    if ev_type == 3 && code == 0x35 {
        EventKind::PositionX
    } else if ev_type == 3 && code == 0x36 {
        EventKind::PositionY
    } else if ev_type == 1 && code == 0x145 {
        EventKind::Finger
    } else {
        EventKind::Ignored
    }
}

/// The kind of a raw input event, by its type and code.
pub fn classify_event(ev_type: u16, code: u16) -> (k: EventKind)
    ensures
        k == event_kind(ev_type, code),
{
    if ev_type == ev_absolute() && code == abs_mt_position_x() {
        EventKind::PositionX
    } else if ev_type == ev_absolute() && code == abs_mt_position_y() {
        EventKind::PositionY
    } else if ev_type == ev_key() && code == btn_tool_finger() {
        EventKind::Finger
    } else {
        EventKind::Ignored
    }
}

/// Where a placed finger is, in the order in which the touchpad surface is
/// tested: the Num Lock zone, then the brightness/calculator zone, then the
/// key grid (or the reserved strip above it).
#[derive(Debug, PartialEq, Eq, Structural, Clone, Copy)]
pub enum TouchTarget {
    /// Inside the Num Lock zone.
    NumlockZone,
    /// Inside the brightness/calculator zone (and not the Num Lock zone).
    BrightnessZone,
    /// Above the key grid, in the strip reserved by `top_offset`.
    Reserved,
    /// In the key grid cell at this row and column (possibly outside the keymap).
    Cell { row: usize, col: usize },
}

/// One input event as the numpad reads it.
#[derive(Debug, PartialEq, Eq, Structural, Clone, Copy)]
pub enum TouchEvent {
    /// New X coordinate of the finger.
    PositionX(i32),
    /// New Y coordinate of the finger.
    PositionY(i32),
    /// `BTN_TOOL_FINGER` with its value (1 placed, 0 lifted) and where the
    /// finger is at that moment.
    Finger { value: i32, target: TouchTarget },
}

/// What the event loop does in answer to one event.
#[derive(Debug, PartialEq, Eq, Structural, Clone, Copy)]
pub enum Action {
    /// Nothing.
    Nothing,
    /// Press `key` (with left shift held first when `shift`) and synchronize.
    PressKey { key: u16, shift: bool },
    /// Release left shift and `key`, and synchronize.
    ReleaseKey { key: u16 },
    /// Press Num Lock, grab the touchpad and light the backlight at `level`.
    ActivateNumlock { level: u8 },
    /// Release Num Lock, ungrab the touchpad and turn the backlight off.
    DeactivateNumlock,
    /// Set the backlight to `level`.
    ChangeBrightness { level: u8 },
    /// Press and release the calculator key.
    LaunchCalculator,
}

/// The state that the event loop keeps between events.
#[derive(Debug, PartialEq, Eq, Structural, Clone, Copy)]
pub struct NumpadState {
    /// Last X coordinate reported.
    pub x: i32,
    /// Last Y coordinate reported.
    pub y: i32,
    /// The key held down, if any, released when the finger lifts.
    pub pressed: Option<u16>,
    /// Whether the numpad overlay is on.
    pub numlock: bool,
    /// The current backlight level.
    pub brightness: Brightness,
    /// When the last finger was placed, in nanoseconds on a monotonic clock.
    pub last_down_ns: u64,
    /// Whether a double tap has unlocked the next action.
    pub mode_enabled: bool,
}

impl NumpadState {
    /// The state when the event loop starts at time `now_ns`: no key held,
    /// Num Lock off, backlight off, last tap at `now_ns`.
    pub fn new(now_ns: u64) -> (s: Self)
        ensures
            s == initial_state(now_ns),
    {
        NumpadState {
            x: 0,
            y: 0,
            pressed: None,
            numlock: false,
            brightness: Brightness::Off,
            last_down_ns: now_ns,
            mode_enabled: false,
        }
    }
}

/// The state of the event loop when it starts at time `now`.
pub open spec fn initial_state(now: u64) -> NumpadState {
    NumpadState {
        x: 0,
        y: 0,
        pressed: None,
        numlock: false,
        brightness: Brightness::Off,
        last_down_ns: now,
        mode_enabled: false,
    }
}

/// Errors of the touchpad's setup and event loop.
#[derive(Debug, PartialEq)]
pub enum TouchpadError {
    /// The touchpad has not been opened.
    NotOpen,
    /// The virtual key device has not been registered.
    NotRegistered,
    /// The keyboard layout family is unknown; holds the raw keymap.
    UnknownKeyboardLayout(String),
}

impl TouchpadError {
    /// The error's message.
    pub fn message(&self) -> (s: String)
        ensures
            s@ == match self {
                TouchpadError::NotOpen => "The touchpad is not open!"@,
                TouchpadError::NotRegistered => "The touchpad is not registered!"@,
                TouchpadError::UnknownKeyboardLayout(k) => "Unspecified keyboad layout: '"@
                    + k@ + "'"@,
            },
    {
        match self {
            TouchpadError::NotOpen => String::from_str("The touchpad is not open!"),
            TouchpadError::NotRegistered => String::from_str("The touchpad is not registered!"),
            TouchpadError::UnknownKeyboardLayout(k) => {
                let mut s = String::from_str("Unspecified keyboad layout: '");
                s.append(k.as_str());
                s.append("'");
                s
            },
        }
    }
}

/// The touchpad's setup state as plain values.
pub struct TouchpadView {
    pub opened: bool,
    pub registered: bool,
    pub bus: i32,
    pub event: Seq<char>,
    pub max_x: i32,
    pub max_y: i32,
    pub percentage_key: u16,
    pub layout: LayoutView,
}

/// Represents the physical touchpad device, which also acts as a virtual numpad:
/// where it is, what has been set up, and the layout it serves.
pub struct Touchpad {
    /// Whether the underlying device has been successfully opened.
    opened: bool,
    /// Whether the virtual key device has been successfully registered.
    registered: bool,
    /// I2C bus number used for brightness/numlock control commands.
    bus: i32,
    /// Name of the input event device (e.g. `"event5"`).
    event: String,
    /// Maximum absolute X coordinate reported by the touchpad.
    max_x: i32,
    /// Maximum absolute Y coordinate reported by the touchpad.
    max_y: i32,
    /// The key code used to emit the `%` character, which differs between
    /// QWERTY and AZERTY keyboard layouts.
    percentage_key: u16,
    /// Layout configuration (zones, brightness levels, grid size, etc.).
    layout: Layout,
}

impl View for Touchpad {
    type V = TouchpadView;

    closed spec fn view(&self) -> TouchpadView {
        TouchpadView {
            opened: self.opened,
            registered: self.registered,
            bus: self.bus,
            event: self.event@,
            max_x: self.max_x,
            max_y: self.max_y,
            percentage_key: self.percentage_key,
            layout: self.layout@,
        }
    }
}

/// The percentage key of a keyboard layout family: `KEY_APOSTROPHE` (40) for
/// AZERTY, `KEY_5` (6) for QWERTY; none for an unknown family.
pub open spec fn percentage_key_of(k: crate::sys::keyboard::KeyboardLayoutView) -> Option<u16> {
    match k {
        crate::sys::keyboard::KeyboardLayoutView::Azerty => Some(40u16),
        crate::sys::keyboard::KeyboardLayoutView::Qwerty => Some(6u16),
        crate::sys::keyboard::KeyboardLayoutView::Unknown(_) => None,
    }
}

/// The keys that the virtual device must be able to emit: left shift, Num
/// Lock, the calculator, every key of the grid, and the percentage key when it
/// is not `KEY_5`.
pub open spec fn capability_set(percentage_key: u16, keys: Seq<Seq<u16>>) -> Set<u16> {
    Set::new(
        |c: u16|
            c == 42 || c == 69 || c == 140 || (percentage_key != 6 && c == percentage_key) || exists|
                i: int,
                j: int,
            |
                0 <= i < keys.len() && 0 <= j < keys[i].len() && #[trigger] keys[i][j] == c,
    )
}

/// The key in the grid at `row`, `col`, if the grid has that cell.
pub open spec fn key_at(keys: Seq<Seq<u16>>, row: int, col: int) -> Option<u16> {
    if 0 <= row < keys.len() && 0 <= col < keys[row].len() {
        Some(keys[row][col])
    } else {
        None
    }
}

/// The time from `last` to `now`, zero if `now` is earlier.
pub open spec fn elapsed_ns(last: u64, now: u64) -> int {
    if now >= last {
        now - last
    } else {
        0
    }
}

/// A finger placed at `now` comes within the double-tap delay of the previous one.
pub open spec fn within_double_tap(tp: TouchpadView, s: NumpadState, now: u64) -> bool {
    elapsed_ns(s.last_down_ns, now) < tp.layout.double_tap_delay_ms as int * 1_000_000
}

/// A finger placed at `now` on `target` while no key is held.
///
/// A tap within the double-tap delay of the previous one flips the unlock
/// flag; with Num Lock off and no unlock the tap does nothing else. Otherwise
/// the unlock is used up, and: the Num Lock zone toggles Num Lock (the
/// backlight coming on at `High` if it was off); the brightness zone cycles
/// the brightness with Num Lock on, or launches the calculator with Num Lock
/// off if the layout allows it; with Num Lock on a grid cell presses its key
/// (`KEY_5` standing for the percentage key, which is sent with shift).
pub open spec fn tap(
    tp: TouchpadView,
    keys: Seq<Seq<u16>>,
    s: NumpadState,
    target: TouchTarget,
    now: u64,
) -> (NumpadState, Action) {
    let mode = if within_double_tap(tp, s, now) {
        !s.mode_enabled
    } else {
        s.mode_enabled
    };
    let s1 = NumpadState { last_down_ns: now, mode_enabled: mode, ..s };
    if !s.numlock && !mode {
        (s1, Action::Nothing)
    } else {
        let s2 = NumpadState { mode_enabled: false, ..s1 };
        match target {
            TouchTarget::NumlockZone => if s.numlock {
                (NumpadState { numlock: false, ..s2 }, Action::DeactivateNumlock)
            } else {
                let b = if s.brightness == Brightness::Off {
                    Brightness::High
                } else {
                    s.brightness
                };
                (
                    NumpadState { numlock: true, brightness: b, ..s2 },
                    Action::ActivateNumlock { level: level_value(tp.layout.brightness_levels, b) },
                )
            },
            TouchTarget::BrightnessZone => if s.numlock {
                let b = next_brightness(s.brightness);
                (
                    NumpadState { brightness: b, ..s2 },
                    Action::ChangeBrightness { level: level_value(tp.layout.brightness_levels, b) },
                )
            } else if tp.layout.allow_calculator {
                (s2, Action::LaunchCalculator)
            } else {
                (s2, Action::Nothing)
            },
            TouchTarget::Reserved => (s2, Action::Nothing),
            TouchTarget::Cell { row, col } => if !s.numlock {
                (s2, Action::Nothing)
            } else {
                match key_at(keys, row as int, col as int) {
                    None => (s2, Action::Nothing),
                    Some(k0) => {
                        let k = if k0 == 6 {
                            tp.percentage_key
                        } else {
                            k0
                        };
                        (
                            NumpadState { pressed: Some(k), ..s2 },
                            Action::PressKey { key: k, shift: k == tp.percentage_key },
                        )
                    },
                }
            },
        }
    }
}

/// The event loop's answer to one event at time `now`: the next state and the
/// action to perform. Coordinates are recorded; a lifted finger releases the
/// held key; a placed finger with no key held is a [`tap`]; anything else is
/// ignored.
pub open spec fn step(
    tp: TouchpadView,
    keys: Seq<Seq<u16>>,
    s: NumpadState,
    ev: TouchEvent,
    now: u64,
) -> (NumpadState, Action) {
    match ev {
        TouchEvent::PositionX(v) => (NumpadState { x: v, ..s }, Action::Nothing),
        TouchEvent::PositionY(v) => (NumpadState { y: v, ..s }, Action::Nothing),
        TouchEvent::Finger { value, target } => if value == 0 {
            match s.pressed {
                Some(k) => (NumpadState { pressed: None, ..s }, Action::ReleaseKey { key: k }),
                None => (s, Action::Nothing),
            }
        } else if value == 1 && s.pressed is None {
            tap(tp, keys, s, target, now)
        } else {
            (s, Action::Nothing)
        },
    }
}

impl Touchpad {
    /// Creates a new `Touchpad` for the I2C bus `bus` and the input event
    /// device `event`, not yet opened: percentage key `KEY_5`, axes at zero.
    pub fn new(bus: i32, event: &str, layout: &Layout) -> (t: Self)
        ensures
            t@ == (TouchpadView {
                opened: false,
                registered: false,
                bus: bus,
                event: event@,
                max_x: 0,
                max_y: 0,
                percentage_key: 6,
                layout: layout@,
            }),
    {
        Touchpad {
            opened: false,
            registered: false,
            bus,
            event: String::from_str(event),
            max_x: 0,
            max_y: 0,
            percentage_key: key_5(),
            layout: layout.clone(),
        }
    }

    /// The I2C bus number.
    pub fn bus(&self) -> (b: i32)
        ensures
            b == self@.bus,
    {
        self.bus
    }

    /// The input event device name.
    pub fn event(&self) -> (e: &str)
        ensures
            e@ == self@.event,
    {
        self.event.as_str()
    }

    /// The maximum X coordinate.
    pub fn max_x(&self) -> (m: i32)
        ensures
            m == self@.max_x,
    {
        self.max_x
    }

    /// The maximum Y coordinate.
    pub fn max_y(&self) -> (m: i32)
        ensures
            m == self@.max_y,
    {
        self.max_y
    }

    /// The key that types `%`.
    pub fn percentage_key(&self) -> (k: u16)
        ensures
            k == self@.percentage_key,
    {
        self.percentage_key
    }

    /// The layout the touchpad serves.
    pub fn layout(&self) -> (l: &Layout)
        ensures
            l@ == self@.layout,
    {
        &self.layout
    }

    /// Whether the device has been opened.
    pub fn is_opened(&self) -> (b: bool)
        ensures
            b == self@.opened,
    {
        self.opened
    }

    /// Whether the virtual key device has been registered.
    pub fn is_registered(&self) -> (b: bool)
        ensures
            b == self@.registered,
    {
        self.registered
    }

    /// The path of the input event device: `/dev/input/<event>`.
    pub fn device_path(&self) -> (p: String)
        ensures
            p@ == "/dev/input/"@ + self@.event,
    {
        let mut p = String::from_str("/dev/input/");
        p.append(self.event.as_str());
        p
    }

    /// The path of the I2C device: `/dev/i2c-<bus>`.
    pub fn i2c_path(&self) -> (p: String)
        ensures
            p@ == "/dev/i2c-"@ + int_decimal(self@.bus as int),
    {
        let mut p = String::from_str("/dev/i2c-");
        let digits = string_of(decimal_i32(self.bus).as_slice());
        p.append(digits.as_str());
        p
    }

    /// The first step of opening: picks the percentage key from the keyboard
    /// layout family, and refuses an unknown family.
    pub fn apply_keyboard_layout(&mut self, keyboard: &KeyboardLayout) -> (r: Result<(), TouchpadError>)
        ensures
            match percentage_key_of(keyboard@) {
                Some(k) => r is Ok && final(self)@ == (TouchpadView { percentage_key: k, ..old(self)@ }),
                None => r matches Err(TouchpadError::UnknownKeyboardLayout(s))
                    && keyboard@ == crate::sys::keyboard::KeyboardLayoutView::Unknown(s@)
                    && final(self)@ == old(self)@,
            },
    {
        match keyboard {
            KeyboardLayout::Qwerty => {
                self.percentage_key = key_5();
                Ok(())
            },
            KeyboardLayout::Azerty => {
                self.percentage_key = key_apostrophe();
                Ok(())
            },
            KeyboardLayout::Unknown(k) => Err(TouchpadError::UnknownKeyboardLayout(k.clone())),
        }
    }

    /// The last step of opening: records the axes' maxima read from the device
    /// and marks the touchpad open.
    pub fn finish_open(&mut self, max_x: i32, max_y: i32)
        ensures
            final(self)@ == (TouchpadView { opened: true, max_x: max_x, max_y: max_y, ..old(self)@ }),
    {
        self.max_x = max_x;
        self.max_y = max_y;
        self.opened = true;
    }

    /// The keys to register on the virtual device for the grid `keys_layout`,
    /// each once; an error if the touchpad is not open.
    pub fn capabilities(&self, keys_layout: &Vec<Vec<u16>>) -> (r: Result<Vec<u16>, TouchpadError>)
        ensures
            !self@.opened ==> r == Err::<Vec<u16>, TouchpadError>(TouchpadError::NotOpen),
            self@.opened ==> (r matches Ok(v) && v@.no_duplicates() && v@.to_set()
                == capability_set(self@.percentage_key, keys_layout.deep_view())),
    {
        if !self.opened {
            return Err(TouchpadError::NotOpen);
        }
        let mut v: Vec<u16> = Vec::new();
        insert_unique(&mut v, key_leftshift());
        insert_unique(&mut v, key_numlock());
        insert_unique(&mut v, key_calc());
        let ghost keys = keys_layout.deep_view();
        let n: usize = keys_layout.len();
        for i in 0..n
            invariant
                n == keys.len(),
                keys == keys_layout.deep_view(),
                v@.no_duplicates(),
                forall|c: u16|
                    v@.contains(c) <==> (c == 42 || c == 69 || c == 140 || exists|a: int, b: int|
                        0 <= a < i && 0 <= b < keys[a].len() && #[trigger] keys[a][b] == c),
        {
            let row = &keys_layout[i];
            let m: usize = row.len();
            assert(keys[i as int].len() == m);
            for j in 0..m
                invariant
                    n == keys.len(),
                    i < n,
                    keys == keys_layout.deep_view(),
                    m == keys[i as int].len(),
                    row@ == keys_layout@[i as int]@,
                    v@.no_duplicates(),
                    forall|c: u16|
                        v@.contains(c) <==> (c == 42 || c == 69 || c == 140 || (exists|
                            a: int,
                            b: int,
                        | 0 <= a < i && 0 <= b < keys[a].len() && #[trigger] keys[a][b] == c)
                            || exists|b: int| 0 <= b < j && #[trigger] keys[i as int][b] == c),
            {
                assert(keys[i as int][j as int] == row@[j as int]);
                insert_unique(&mut v, row[j]);
                assert forall|c: u16|
                    v@.contains(c) <==> (c == 42 || c == 69 || c == 140 || (exists|a: int, b: int|
                        0 <= a < i && 0 <= b < keys[a].len() && #[trigger] keys[a][b] == c)
                        || exists|b: int| 0 <= b < j + 1 && #[trigger] keys[i as int][b] == c) by {
                    if c == row@[j as int] {
                        assert(keys[i as int][j as int] == c);
                    }
                }
            }
            assert forall|c: u16|
                v@.contains(c) <==> (c == 42 || c == 69 || c == 140 || exists|a: int, b: int|
                    0 <= a < i + 1 && 0 <= b < keys[a].len() && #[trigger] keys[a][b] == c) by {
                if exists|b: int| 0 <= b < m && #[trigger] keys[i as int][b] == c {
                    let b = choose|b: int| 0 <= b < m && #[trigger] keys[i as int][b] == c;
                    assert(keys[i as int][b] == c);
                }
            }
        }
        if self.percentage_key != key_5() {
            insert_unique(&mut v, self.percentage_key);
        }
        assert(v@.to_set() =~= capability_set(self.percentage_key, keys));
        Ok(v)
    }

    /// Marks the virtual key device as registered.
    pub fn mark_registered(&mut self)
        ensures
            final(self)@ == (TouchpadView { registered: true, ..old(self)@ }),
    {
        self.registered = true;
    }

    /// The event loop may run only once the touchpad is open and registered.
    pub fn check_ready(&self) -> (r: Result<(), TouchpadError>)
        ensures
            !self@.opened ==> r == Err::<(), TouchpadError>(TouchpadError::NotOpen),
            self@.opened && !self@.registered ==> r == Err::<(), TouchpadError>(
                TouchpadError::NotRegistered,
            ),
            self@.opened && self@.registered ==> r is Ok,
    {
        if !self.opened {
            return Err(TouchpadError::NotOpen);
        }
        if !self.registered {
            return Err(TouchpadError::NotRegistered);
        }
        Ok(())
    }

    /// Converts a brightness level into the raw value of the layout; `0` for `Off`.
    pub fn brightness_to_u8(&self, brightness: &Brightness) -> (v: u8)
        ensures
            v == level_value(self@.layout.brightness_levels, *brightness),
    {
        match brightness {
            Brightness::Low => self.layout.brightness_levels.low,
            Brightness::Medium => self.layout.brightness_levels.med,
            Brightness::High => self.layout.brightness_levels.high,
            Brightness::Off => 0,
        }
    }

    /// Cycles `brightness` to its next level and returns the I2C command that
    /// applies it.
    pub fn change_brightness(&self, brightness: &mut Brightness) -> (cmd: Vec<u8>)
        ensures
            *final(brightness) == next_brightness(*old(brightness)),
            cmd@ == backlight_bytes(
                level_value(self@.layout.brightness_levels, next_brightness(*old(brightness))),
            ),
    {
        *brightness = brightness.next();
        backlight_command(self.brightness_to_u8(brightness))
    }

    /// The event loop's decision for one event at time `now_ns` (nanoseconds
    /// on a monotonic clock): updates `state` and returns the action to perform.
    pub fn handle_event(
        &self,
        state: &mut NumpadState,
        keys_layout: &Vec<Vec<u16>>,
        event: TouchEvent,
        now_ns: u64,
    ) -> (a: Action)
        ensures
            (*final(state), a) == step(self@, keys_layout.deep_view(), *old(state), event, now_ns),
    {
        match event {
            TouchEvent::PositionX(v) => {
                state.x = v;
                Action::Nothing
            },
            TouchEvent::PositionY(v) => {
                state.y = v;
                Action::Nothing
            },
            TouchEvent::Finger { value, target } => {
                if value == 0 {
                    match state.pressed {
                        Some(k) => {
                            state.pressed = None;
                            Action::ReleaseKey { key: k }
                        },
                        None => Action::Nothing,
                    }
                } else if value == 1 && state.pressed.is_none() {
                    self.handle_tap(state, keys_layout, target, now_ns)
                } else {
                    Action::Nothing
                }
            },
        }
    }

    fn handle_tap(
        &self,
        state: &mut NumpadState,
        keys_layout: &Vec<Vec<u16>>,
        target: TouchTarget,
        now_ns: u64,
    ) -> (a: Action)
        ensures
            (*final(state), a) == tap(self@, keys_layout.deep_view(), *old(state), target, now_ns),
    {
        let delay_ns: u64 = self.layout.double_tap_delay_ms as u64 * 1_000_000;
        let elapsed: u64 = if now_ns >= state.last_down_ns {
            now_ns - state.last_down_ns
        } else {
            0
        };
        if elapsed < delay_ns {
            state.mode_enabled = !state.mode_enabled;
        }
        state.last_down_ns = now_ns;
        if !state.numlock && !state.mode_enabled {
            return Action::Nothing;
        }
        state.mode_enabled = false;
        match target {
            TouchTarget::NumlockZone => {
                if state.numlock {
                    state.numlock = false;
                    Action::DeactivateNumlock
                } else {
                    state.numlock = true;
                    if state.brightness == Brightness::Off {
                        state.brightness = Brightness::High;
                    }
                    Action::ActivateNumlock { level: self.brightness_to_u8(&state.brightness) }
                }
            },
            TouchTarget::BrightnessZone => {
                if state.numlock {
                    state.brightness = state.brightness.next();
                    Action::ChangeBrightness { level: self.brightness_to_u8(&state.brightness) }
                } else if self.layout.allow_calculator {
                    Action::LaunchCalculator
                } else {
                    Action::Nothing
                }
            },
            TouchTarget::Reserved => Action::Nothing,
            TouchTarget::Cell { row, col } => {
                if !state.numlock {
                    return Action::Nothing;
                }
                if row >= keys_layout.len() || col >= keys_layout[row].len() {
                    return Action::Nothing;
                }
                let mut key: u16 = keys_layout[row][col];
                if key == key_5() {
                    key = self.percentage_key;
                }
                state.pressed = Some(key);
                Action::PressKey { key, shift: key == self.percentage_key }
            },
        }
    }
}

// ---------------------------------------------------------------------------
// Laws of the event loop
// ---------------------------------------------------------------------------

/// The brightness cycle never turns the backlight off, and comes back to a
/// lit level after three steps: `Low → Medium → High → Low`.
pub proof fn law_brightness_cycle(b: Brightness)
    ensures
        next_brightness(b) != Brightness::Off,
        b != Brightness::Off ==> next_brightness(next_brightness(next_brightness(b))) == b,
{
}

/// A key is held only while Num Lock is on.
pub open spec fn key_held_only_with_numlock(s: NumpadState) -> bool {
    s.pressed is Some ==> s.numlock
}

/// The event loop starts with no key held, and every step keeps a key held
/// only while Num Lock is on.
pub proof fn law_key_held_only_with_numlock(
    tp: TouchpadView,
    keys: Seq<Seq<u16>>,
    s: NumpadState,
    ev: TouchEvent,
    now: u64,
    start: u64,
)
    requires
        key_held_only_with_numlock(s),
    ensures
        key_held_only_with_numlock(initial_state(start)),
        initial_state(start).pressed is None,
        key_held_only_with_numlock(step(tp, keys, s, ev, now).0),
{
}

/// The key that a tap presses is the key that lifting the finger releases,
/// whatever the touchpad reports meanwhile about the finger's position.
pub proof fn law_release_matches_press(
    tp: TouchpadView,
    keys: Seq<Seq<u16>>,
    s: NumpadState,
    target: TouchTarget,
    now: u64,
    lift_target: TouchTarget,
    later: u64,
)
    ensures
        ({
            let (s1, a1) = step(tp, keys, s, TouchEvent::Finger { value: 1, target: target }, now);
            a1 matches Action::PressKey { key, shift } ==> s1.pressed == Some(key) && step(
                tp,
                keys,
                s1,
                TouchEvent::Finger { value: 0, target: lift_target },
                later,
            ) == (NumpadState { pressed: None, ..s1 }, Action::ReleaseKey { key: key })
        }),
{
}

/// While a key is held, a finger event other than a lift changes nothing and
/// does nothing.
pub proof fn law_held_key_ignores_taps(
    tp: TouchpadView,
    keys: Seq<Seq<u16>>,
    s: NumpadState,
    value: i32,
    target: TouchTarget,
    now: u64,
)
    requires
        s.pressed is Some,
        value != 0,
    ensures
        step(tp, keys, s, TouchEvent::Finger { value: value, target: target }, now) == (
        s,
        Action::Nothing,
        ),
{
}

/// With Num Lock off, a single tap (not within the double-tap delay of the
/// previous one) is ignored: it only records its time.
pub proof fn law_single_tap_ignored(
    tp: TouchpadView,
    keys: Seq<Seq<u16>>,
    s: NumpadState,
    target: TouchTarget,
    now: u64,
)
    requires
        !s.numlock,
        !s.mode_enabled,
        s.pressed is None,
        !within_double_tap(tp, s, now),
    ensures
        step(tp, keys, s, TouchEvent::Finger { value: 1, target: target }, now) == (
        NumpadState { last_down_ns: now, ..s },
        Action::Nothing,
        ),
{
}

/// A double-tap delay of 0 disables double taps: with Num Lock off, every
/// tap is ignored.
pub proof fn law_zero_delay_disables_double_tap(
    tp: TouchpadView,
    keys: Seq<Seq<u16>>,
    s: NumpadState,
    target: TouchTarget,
    now: u64,
)
    requires
        tp.layout.double_tap_delay_ms == 0,
        !s.numlock,
        !s.mode_enabled,
        s.pressed is None,
    ensures
        step(tp, keys, s, TouchEvent::Finger { value: 1, target: target }, now) == (
        NumpadState { last_down_ns: now, ..s },
        Action::Nothing,
        ),
{
}

/// No unlock is ever left pending: the event loop starts without one, and
/// every step from a state without one leads to a state without one. So the
/// tap laws below, stated for states without a pending unlock, hold in every
/// state that the loop reaches.
pub proof fn law_unlock_never_left_pending(
    tp: TouchpadView,
    keys: Seq<Seq<u16>>,
    s: NumpadState,
    ev: TouchEvent,
    now: u64,
    start: u64,
)
    requires
        !s.mode_enabled,
    ensures
        !initial_state(start).mode_enabled,
        !step(tp, keys, s, ev, now).0.mode_enabled,
{
}

/// No grid key is pressed while Num Lock is off: a step presses a key only
/// from a state with Num Lock on, and leaves it on.
pub proof fn law_no_key_press_without_numlock(
    tp: TouchpadView,
    keys: Seq<Seq<u16>>,
    s: NumpadState,
    ev: TouchEvent,
    now: u64,
)
    ensures
        step(tp, keys, s, ev, now).1 is PressKey ==> s.numlock && step(tp, keys, s, ev, now).0.numlock,
{
}

/// A double tap with Num Lock off does exactly one action, that of the second
/// tap's position: the Num Lock zone turns Num Lock on, the brightness zone
/// launches the calculator if the layout allows it, anywhere else nothing.
/// The unlock is then used up: while Num Lock stays off, a later lone tap is
/// ignored again.
pub proof fn law_double_tap_performs_one_action(
    tp: TouchpadView,
    keys: Seq<Seq<u16>>,
    s: NumpadState,
    first: TouchTarget,
    now1: u64,
    lift: TouchTarget,
    second: TouchTarget,
    now2: u64,
    third: TouchTarget,
    now3: u64,
)
    requires
        !s.numlock,
        !s.mode_enabled,
        s.pressed is None,
        !within_double_tap(tp, s, now1),
        now1 <= now2,
        now2 - now1 < tp.layout.double_tap_delay_ms as int * 1_000_000,
        now2 <= now3,
        now3 - now2 >= tp.layout.double_tap_delay_ms as int * 1_000_000,
    ensures
        ({
            let (s1, a1) = step(tp, keys, s, TouchEvent::Finger { value: 1, target: first }, now1);
            let (s2, a2) = step(tp, keys, s1, TouchEvent::Finger { value: 0, target: lift }, now1);
            let (s3, a3) = step(tp, keys, s2, TouchEvent::Finger { value: 1, target: second }, now2);
            let (s4, a4) = step(tp, keys, s3, TouchEvent::Finger { value: 1, target: third }, now3);
            &&& a1 == Action::Nothing
            &&& a2 == Action::Nothing
            &&& !s3.mode_enabled
            &&& s3.pressed is None
            &&& match second {
                TouchTarget::NumlockZone => s3.numlock && a3 == Action::ActivateNumlock {
                    level: level_value(tp.layout.brightness_levels, s3.brightness),
                },
                TouchTarget::BrightnessZone => !s3.numlock && a3 == (if tp.layout.allow_calculator {
                    Action::LaunchCalculator
                } else {
                    Action::Nothing
                }),
                _ => !s3.numlock && a3 == Action::Nothing,
            }
            &&& !s3.numlock ==> a4 == Action::Nothing && !s4.numlock
        }),
{
}

/// The state after the event loop, started at `start`, has handled the
/// timed events `evs` in order.
pub open spec fn run(
    tp: TouchpadView,
    keys: Seq<Seq<u16>>,
    start: u64,
    evs: Seq<(TouchEvent, u64)>,
) -> NumpadState
    decreases evs.len(),
{
    if evs.len() == 0 {
        initial_state(start)
    } else {
        step(tp, keys, run(tp, keys, start, evs.drop_last()), evs.last().0, evs.last().1).0
    }
}

/// Every state that the event loop reaches has no unlock pending and holds a
/// key only while Num Lock is on.
pub proof fn law_reached_states(
    tp: TouchpadView,
    keys: Seq<Seq<u16>>,
    start: u64,
    evs: Seq<(TouchEvent, u64)>,
)
    ensures
        !run(tp, keys, start, evs).mode_enabled,
        key_held_only_with_numlock(run(tp, keys, start, evs)),
    decreases evs.len(),
{
    if evs.len() > 0 {
        law_reached_states(tp, keys, start, evs.drop_last());
    }
}

/// In any state the event loop reaches, with Num Lock off and no key held,
/// a tap that does not come within the double-tap delay of the previous one
/// (or of the start) is ignored: it only records its time.
pub proof fn law_lone_tap_ignored_when_reached(
    tp: TouchpadView,
    keys: Seq<Seq<u16>>,
    start: u64,
    evs: Seq<(TouchEvent, u64)>,
    target: TouchTarget,
    now: u64,
)
    requires
        !run(tp, keys, start, evs).numlock,
        run(tp, keys, start, evs).pressed is None,
        !within_double_tap(tp, run(tp, keys, start, evs), now),
    ensures
        ({
            let s = run(tp, keys, start, evs);
            step(tp, keys, s, TouchEvent::Finger { value: 1, target: target }, now) == (
            NumpadState { last_down_ns: now, ..s },
            Action::Nothing,
            )
        }),
{
    law_reached_states(tp, keys, start, evs);
}

/// In any state the event loop reaches, with Num Lock off and no key held, a
/// double tap does exactly one action for the second tap's position, after
/// which a later lone tap is ignored again while Num Lock stays off (see
/// [`law_double_tap_performs_one_action`]).
pub proof fn law_double_tap_when_reached(
    tp: TouchpadView,
    keys: Seq<Seq<u16>>,
    start: u64,
    evs: Seq<(TouchEvent, u64)>,
    first: TouchTarget,
    now1: u64,
    lift: TouchTarget,
    second: TouchTarget,
    now2: u64,
    third: TouchTarget,
    now3: u64,
)
    requires
        !run(tp, keys, start, evs).numlock,
        run(tp, keys, start, evs).pressed is None,
        !within_double_tap(tp, run(tp, keys, start, evs), now1),
        now1 <= now2,
        now2 - now1 < tp.layout.double_tap_delay_ms as int * 1_000_000,
        now2 <= now3,
        now3 - now2 >= tp.layout.double_tap_delay_ms as int * 1_000_000,
    ensures
        ({
            let s = run(tp, keys, start, evs);
            let (s1, a1) = step(tp, keys, s, TouchEvent::Finger { value: 1, target: first }, now1);
            let (s2, a2) = step(tp, keys, s1, TouchEvent::Finger { value: 0, target: lift }, now1);
            let (s3, a3) = step(tp, keys, s2, TouchEvent::Finger { value: 1, target: second }, now2);
            let (s4, a4) = step(tp, keys, s3, TouchEvent::Finger { value: 1, target: third }, now3);
            &&& a1 == Action::Nothing
            &&& a2 == Action::Nothing
            &&& match second {
                TouchTarget::NumlockZone => s3.numlock && a3 == Action::ActivateNumlock {
                    level: level_value(tp.layout.brightness_levels, s3.brightness),
                },
                TouchTarget::BrightnessZone => !s3.numlock && a3 == (if tp.layout.allow_calculator {
                    Action::LaunchCalculator
                } else {
                    Action::Nothing
                }),
                _ => !s3.numlock && a3 == Action::Nothing,
            }
            &&& !s3.numlock ==> a4 == Action::Nothing && !s4.numlock
        }),
{
    law_reached_states(tp, keys, start, evs);
    law_double_tap_performs_one_action(
        tp,
        keys,
        run(tp, keys, start, evs),
        first,
        now1,
        lift,
        second,
        now2,
        third,
        now3,
    );
}

/// Double tap to unlock: with Num Lock off, after an ignored tap, a second
/// tap on the Num Lock zone within the double-tap delay turns Num Lock on and
/// lights the backlight, at `High` if it was off.
pub proof fn law_double_tap_turns_numlock_on(
    tp: TouchpadView,
    keys: Seq<Seq<u16>>,
    s: NumpadState,
    first: TouchTarget,
    now1: u64,
    lift: TouchTarget,
    now2: u64,
)
    requires
        !s.numlock,
        !s.mode_enabled,
        s.pressed is None,
        !within_double_tap(tp, s, now1),
        now1 <= now2,
        now2 - now1 < tp.layout.double_tap_delay_ms as int * 1_000_000,
    ensures
        ({
            let (s1, a1) = step(tp, keys, s, TouchEvent::Finger { value: 1, target: first }, now1);
            let (s2, a2) = step(tp, keys, s1, TouchEvent::Finger { value: 0, target: lift }, now1);
            let (s3, a3) = step(
                tp,
                keys,
                s2,
                TouchEvent::Finger { value: 1, target: TouchTarget::NumlockZone },
                now2,
            );
            &&& a1 == Action::Nothing
            &&& a2 == Action::Nothing
            &&& s3.numlock
            &&& !s3.mode_enabled
            &&& s3.brightness == (if s.brightness == Brightness::Off {
                Brightness::High
            } else {
                s.brightness
            })
            &&& a3 == Action::ActivateNumlock {
                level: level_value(tp.layout.brightness_levels, s3.brightness),
            }
        }),
{
}

/// With Num Lock on, a tap on the Num Lock zone turns it off.
pub proof fn law_numlock_zone_turns_numlock_off(
    tp: TouchpadView,
    keys: Seq<Seq<u16>>,
    s: NumpadState,
    now: u64,
)
    requires
        s.numlock,
        s.pressed is None,
    ensures
        step(tp, keys, s, TouchEvent::Finger { value: 1, target: TouchTarget::NumlockZone }, now)
            == (
        NumpadState { numlock: false, last_down_ns: now, mode_enabled: false, ..s },
        Action::DeactivateNumlock,
        ),
{
}

/// With Num Lock on and no key held, a tap on a cell inside the grid (its row
/// exists and its column is within that row's own length) presses the key of
/// that cell, `KEY_5` (6) standing for the percentage key, and holds it; the
/// key goes with shift exactly when it is the percentage key.
pub proof fn law_tap_on_grid_cell_presses_its_key(
    tp: TouchpadView,
    keys: Seq<Seq<u16>>,
    s: NumpadState,
    row: usize,
    col: usize,
    now: u64,
)
    requires
        s.numlock,
        s.pressed is None,
        row < keys.len(),
        col < keys[row as int].len(),
    ensures
        ({
            let k0 = keys[row as int][col as int];
            let k = if k0 == 6 {
                tp.percentage_key
            } else {
                k0
            };
            let ev = TouchEvent::Finger { value: 1, target: TouchTarget::Cell { row: row, col: col } };
            let (s1, a) = step(tp, keys, s, ev, now);
            &&& a == Action::PressKey { key: k, shift: k == tp.percentage_key }
            &&& s1.pressed == Some(k)
            &&& s1.numlock
        }),
{
}

/// A tap on a cell outside the grid (past the last row, or past the end of
/// its row) presses nothing and leaves no key held.
pub proof fn law_tap_outside_grid_presses_nothing(
    tp: TouchpadView,
    keys: Seq<Seq<u16>>,
    s: NumpadState,
    row: usize,
    col: usize,
    now: u64,
)
    requires
        s.pressed is None,
        row >= keys.len() || col >= keys[row as int].len(),
    ensures
        ({
            let ev = TouchEvent::Finger { value: 1, target: TouchTarget::Cell { row: row, col: col } };
            let (s1, a) = step(tp, keys, s, ev, now);
            &&& a == Action::Nothing
            &&& s1.pressed is None
        }),
{
}

/// A raw event is a finger event exactly when its type is `EV_KEY` (1) and
/// its code `BTN_TOOL_FINGER` (0x145); a position exactly when its type is
/// `EV_ABS` (3) and its code `ABS_MT_POSITION_X` (0x35) or
/// `ABS_MT_POSITION_Y` (0x36); every other event is ignored.
pub proof fn law_event_kinds(ev_type: u16, code: u16)
    ensures
        (event_kind(ev_type, code) == EventKind::Finger) == (ev_type == 1 && code == 0x145),
        (event_kind(ev_type, code) == EventKind::PositionX) == (ev_type == 3 && code == 0x35),
        (event_kind(ev_type, code) == EventKind::PositionY) == (ev_type == 3 && code == 0x36),
        (event_kind(ev_type, code) == EventKind::Ignored) == !((ev_type == 1 && code == 0x145) || (
        ev_type == 3 && (code == 0x35 || code == 0x36))),
{
}

/// With Num Lock on, a tap on a grid cell holding `KEY_5` types the
/// percentage key with shift, and any pressed key goes with shift exactly
/// when it is the percentage key.
pub proof fn law_percentage_key_with_shift(
    tp: TouchpadView,
    keys: Seq<Seq<u16>>,
    s: NumpadState,
    row: usize,
    col: usize,
    now: u64,
)
    requires
        s.numlock,
        s.pressed is None,
    ensures
        ({
            let ev = TouchEvent::Finger { value: 1, target: TouchTarget::Cell { row: row, col: col } };
            let a = step(tp, keys, s, ev, now).1;
            &&& key_at(keys, row as int, col as int) == Some(6u16) ==> a == Action::PressKey {
                key: tp.percentage_key,
                shift: true,
            }
            &&& a matches Action::PressKey { key, shift } ==> shift == (key == tp.percentage_key)
        }),
{
}

/// Every key that a step presses is among the keys registered on the virtual
/// device for the same grid and percentage key.
pub proof fn law_pressed_keys_are_registered(
    tp: TouchpadView,
    keys: Seq<Seq<u16>>,
    s: NumpadState,
    ev: TouchEvent,
    now: u64,
)
    ensures
        step(tp, keys, s, ev, now).1 matches Action::PressKey { key, shift } ==> capability_set(
            tp.percentage_key,
            keys,
        ).contains(key),
{
    if let TouchEvent::Finger { value, target } = ev {
        if let TouchTarget::Cell { row, col } = target {
            if key_at(keys, row as int, col as int) is Some {
                assert(keys[row as int][col as int] == key_at(keys, row as int, col as int)->0);
            }
        }
    }
}

/// The I2C device path names the touchpad's bus: the number after
/// `/dev/i2c-` reads back as the bus.
pub proof fn law_i2c_path_names_bus(bus: i32)
    ensures
        seq_parse_i32(int_decimal(bus as int)) == Some(bus),
{
    lemma_parse_decimal_roundtrip(bus);
}

/// Adds `c` to a list without duplicates, unless it is already there.
fn insert_unique(v: &mut Vec<u16>, c: u16)
    requires
        old(v)@.no_duplicates(),
    ensures
        final(v)@.no_duplicates(),
        forall|x: u16| final(v)@.contains(x) <==> (old(v)@.contains(x) || x == c),
{
    let n: usize = v.len();
    let mut i: usize = 0;
    while i < n
        invariant
            n == v@.len(),
            i <= n,
            v@ == old(v)@,
            v@.no_duplicates(),
            forall|k: int| 0 <= k < i ==> v@[k] != c,
        decreases n - i,
    {
        if v[i] == c {
            return;
        }
        i = i + 1;
    }
    let ghost before = v@;
    v.push(c);
    assert forall|x: u16| v@.contains(x) <==> (before.contains(x) || x == c) by {
        if v@.contains(x) {
            let k = choose|k: int| 0 <= k < v@.len() && v@[k] == x;
            if k < before.len() {
                assert(before[k] == x);
            }
        }
        if before.contains(x) {
            let k = choose|k: int| 0 <= k < before.len() && before[k] == x;
            assert(v@[k] == x);
        }
        if x == c {
            assert(v@[before.len() as int] == c);
        }
    }
}

} // verus!
