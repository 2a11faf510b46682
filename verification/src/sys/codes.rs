//! The Linux input codes that the driver uses, taken from `evdev`'s constants.
//! Each function returns the raw number of one constant; its contract states
//! the value that `evdev` defines for it (from `input-event-codes.h`).
use vstd::prelude::*;

verus! {

/// `evdev::KeyCode::KEY_5.code()`; evdev defines `KEY_5 = 6`.
#[verifier::external_body]
pub(crate) fn key_5() -> (c: u16)
    ensures
        c == 6,
{
    evdev::KeyCode::KEY_5.code()
}

/// `evdev::KeyCode::KEY_APOSTROPHE.code()`; evdev defines `KEY_APOSTROPHE = 40`.
#[verifier::external_body]
pub(crate) fn key_apostrophe() -> (c: u16)
    ensures
        c == 40,
{
    evdev::KeyCode::KEY_APOSTROPHE.code()
}

/// `evdev::KeyCode::KEY_LEFTSHIFT.code()`; evdev defines `KEY_LEFTSHIFT = 42`.
#[verifier::external_body]
pub(crate) fn key_leftshift() -> (c: u16)
    ensures
        c == 42,
{
    evdev::KeyCode::KEY_LEFTSHIFT.code()
}

/// `evdev::KeyCode::KEY_NUMLOCK.code()`; evdev defines `KEY_NUMLOCK = 69`.
#[verifier::external_body]
pub(crate) fn key_numlock() -> (c: u16)
    ensures
        c == 69,
{
    evdev::KeyCode::KEY_NUMLOCK.code()
}

/// `evdev::KeyCode::KEY_CALC.code()`; evdev defines `KEY_CALC = 140`.
#[verifier::external_body]
pub(crate) fn key_calc() -> (c: u16)
    ensures
        c == 140,
{
    evdev::KeyCode::KEY_CALC.code()
}

/// `evdev::KeyCode::BTN_TOOL_FINGER.code()`; evdev defines `BTN_TOOL_FINGER = 0x145`.
#[verifier::external_body]
pub(crate) fn btn_tool_finger() -> (c: u16)
    ensures
        c == 0x145,
{
    evdev::KeyCode::BTN_TOOL_FINGER.code()
}

/// `evdev::EventType::KEY.0`; evdev defines `KEY = 0x01`.
#[verifier::external_body]
pub(crate) fn ev_key() -> (c: u16)
    ensures
        c == 1,
{
    evdev::EventType::KEY.0
}

/// `evdev::EventType::ABSOLUTE.0`; evdev defines `ABSOLUTE = 0x03`.
#[verifier::external_body]
pub(crate) fn ev_absolute() -> (c: u16)
    ensures
        c == 3,
{
    evdev::EventType::ABSOLUTE.0
}

/// `evdev::AbsoluteAxisCode::ABS_MT_POSITION_X.0`; evdev defines it as `0x35`.
#[verifier::external_body]
pub(crate) fn abs_mt_position_x() -> (c: u16)
    ensures
        c == 0x35,
{
    evdev::AbsoluteAxisCode::ABS_MT_POSITION_X.0
}

/// `evdev::AbsoluteAxisCode::ABS_MT_POSITION_Y.0`; evdev defines it as `0x36`.
#[verifier::external_body]
pub(crate) fn abs_mt_position_y() -> (c: u16)
    ensures
        c == 0x36,
{
    evdev::AbsoluteAxisCode::ABS_MT_POSITION_Y.0
}

} // verus!
