//! Trigger events and the consumer-side meaning of their indices.
//!
//! A detected chord is delivered as a `TriggerEvent` carrying the chord's
//! registration index and the press phase.  The index alone selects the
//! downstream behaviour, so that policy stays out of the detection core; the
//! conventional assignment — index 0 improves the selection, index 1 also
//! shows the original — is given here as a plain mapping for the consumer.

use vstd::prelude::*;

use crate::keys::KeyPhase;

verus! {

/// One detected chord, as delivered to the consumer.
#[derive(Clone, Copy, Debug, PartialEq, Eq, Structural)]
pub struct TriggerEvent {
    /// The registration index of the chord that fired.
    pub chord_index: usize,
    /// The phase of the key event that fired it; only presses are emitted.
    pub phase: KeyPhase,
}

/// What the consumer does with a fired chord.
#[derive(Clone, Copy, Debug, PartialEq, Eq, Structural)]
pub enum HotkeyEvent {
    /// Improve the selected text in place.
    Improve,
    /// Improve the selected text and keep the original beside it.
    ImproveShowOriginal,
}

/// The conventional consumer action for a chord index: index 0 improves,
/// index 1 improves and shows the original, any other index has no action.
pub open spec fn action_for_index(index: usize) -> Option<HotkeyEvent> {
    if index == 0 {
        Some(HotkeyEvent::Improve)
    } else if index == 1 {
        Some(HotkeyEvent::ImproveShowOriginal)
    } else {
        None
    }
}

/// Maps a fired chord's index to the consumer action it selects, if any; an
/// index with no configured action is ignored by the consumer.
pub fn hotkey_event_for_index(index: usize) -> (r: Option<HotkeyEvent>)
    ensures
        r == action_for_index(index),
{
    if index == 0 {
        Some(HotkeyEvent::Improve)
    } else if index == 1 {
        Some(HotkeyEvent::ImproveShowOriginal)
    } else {
        None
    }
}

} // verus!
