//! The library's error values.
//!
//! Parsing a chord string fails on the first unknown modifier or key token,
//! naming the offending token; discovering keyboards fails when no candidate
//! qualifies.  Each error renders an operator-facing message.

use vstd::prelude::*;
use vstd::string::StringExecFns;

verus! {

/// What went wrong, with the offending token where one exists.
#[derive(Clone, Debug, PartialEq, Eq)]
pub enum HotkeyError {
    /// A chord string held a modifier token outside SHIFT, CTRL/CONTROL, ALT.
    UnknownModifier(String),
    /// A chord string held a key token outside the fixed key vocabulary.
    UnknownKey(String),
    /// No candidate device qualified as a keyboard.
    NoKeyboardsFound,
}

impl HotkeyError {
    /// An operator-facing description: parse errors name the offending
    /// token, and the device error points at the likely permission cause.
    pub fn message(&self) -> (r: String)
        ensures
            self matches HotkeyError::UnknownModifier(t) ==> r@ == "Unknown modifier: "@ + t@,
            self matches HotkeyError::UnknownKey(t) ==> r@ == "Unknown key: "@ + t@,
            self is NoKeyboardsFound ==> r@
                == "No keyboards found. Make sure you're in the 'input' group or running as root."@,
    {
        match self {
            HotkeyError::UnknownModifier(t) => {
                let mut m = String::from_str("Unknown modifier: ");
                m.append(t.as_str());
                m
            },
            HotkeyError::UnknownKey(t) => {
                let mut m = String::from_str("Unknown key: ");
                m.append(t.as_str());
                m
            },
            HotkeyError::NoKeyboardsFound => String::from_str(
                "No keyboards found. Make sure you're in the 'input' group or running as root.",
            ),
        }
    }
}

} // verus!
