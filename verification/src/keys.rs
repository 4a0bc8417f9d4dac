//! Key codes and key-event phases.
//!
//! A `KeyCode` names one physical key out of the fixed platform vocabulary
//! (letters, digits, the function keys, and a few named keys).  The numeric
//! values follow the Linux input-event code table, so a caller that reads raw
//! events can build a `KeyCode` directly from the code it was handed.

use vstd::prelude::*;

verus! {

/// Code of the left shift key.
pub const CODE_LEFTSHIFT: u16 = 42;

/// Code of the right shift key.
pub const CODE_RIGHTSHIFT: u16 = 54;

/// Code of the left control key.
pub const CODE_LEFTCTRL: u16 = 29;

/// Code of the right control key.
pub const CODE_RIGHTCTRL: u16 = 97;

/// Code of the left alt key.
pub const CODE_LEFTALT: u16 = 56;

/// Code of the right alt key.
pub const CODE_RIGHTALT: u16 = 100;

/// Code of the F1 key; F1 through F10 are consecutive.
pub const CODE_F1: u16 = 59;

/// Code of the F10 key.
pub const CODE_F10: u16 = 68;

/// Code of the F11 key.
pub const CODE_F11: u16 = 87;

/// Code of the F12 key.
pub const CODE_F12: u16 = 88;

/// Code of the scroll-lock key.
pub const CODE_SCROLLLOCK: u16 = 70;

/// Code of the pause key.
pub const CODE_PAUSE: u16 = 119;

/// Code of the insert key.
pub const CODE_INSERT: u16 = 110;

/// An identifier for a physical key, compared by equality only.
#[derive(Clone, Copy, Debug, PartialEq, Eq, Structural)]
pub struct KeyCode {
    pub code: u16,
}

impl KeyCode {
    /// Wraps a raw platform key code.
    pub fn new(code: u16) -> (k: KeyCode)
        ensures
            k.code == code,
    {
        KeyCode { code }
    }
}

/// The phase of one raw key event.
#[derive(Clone, Copy, Debug, PartialEq, Eq, Structural)]
pub enum KeyPhase {
    /// The key went down.
    Press,
    /// The key came up.
    Release,
    /// The key is auto-repeating while held.
    Repeat,
}

/// The phase that a raw event value encodes: 1 is a press, 0 a release, and
/// anything else an auto-repeat.
pub open spec fn phase_of_value(value: i32) -> KeyPhase {
    if value == 1 {
        KeyPhase::Press
    } else if value == 0 {
        KeyPhase::Release
    } else {
        KeyPhase::Repeat
    }
}

/// Decodes the phase of a raw key event from its value field.
pub fn key_phase_of_value(value: i32) -> (p: KeyPhase)
    ensures
        p == phase_of_value(value),
{
    if value == 1 {
        KeyPhase::Press
    } else if value == 0 {
        KeyPhase::Release
    } else {
        KeyPhase::Repeat
    }
}

/// One of the three logical modifiers.
#[derive(Clone, Copy, Debug, PartialEq, Eq, Structural)]
pub enum ModifierClass {
    Shift,
    Ctrl,
    Alt,
}

/// The logical modifier that a key belongs to, if any.  Each modifier has a
/// left and a right physical variant; both map to the same class.
pub open spec fn modifier_class(key: KeyCode) -> Option<ModifierClass> {
    if key.code == CODE_LEFTSHIFT || key.code == CODE_RIGHTSHIFT {
        Some(ModifierClass::Shift)
    } else if key.code == CODE_LEFTCTRL || key.code == CODE_RIGHTCTRL {
        Some(ModifierClass::Ctrl)
    } else if key.code == CODE_LEFTALT || key.code == CODE_RIGHTALT {
        Some(ModifierClass::Alt)
    } else {
        None
    }
}

/// Classifies a key as one of the three logical modifiers, or none.
pub fn classify_modifier(key: KeyCode) -> (c: Option<ModifierClass>)
    ensures
        c == modifier_class(key),
{
    if key.code == CODE_LEFTSHIFT || key.code == CODE_RIGHTSHIFT {
        Some(ModifierClass::Shift)
    } else if key.code == CODE_LEFTCTRL || key.code == CODE_RIGHTCTRL {
        Some(ModifierClass::Ctrl)
    } else if key.code == CODE_LEFTALT || key.code == CODE_RIGHTALT {
        Some(ModifierClass::Alt)
    } else {
        None
    }
}

} // verus!
