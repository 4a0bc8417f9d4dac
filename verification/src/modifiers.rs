//! The live modifier state and its tracker.
//!
//! Three independent booleans hold whether shift, ctrl and alt are currently
//! considered down.  A press of either physical variant of a modifier sets
//! its boolean; a release of either variant clears it unconditionally, even
//! if the other variant is still held — a deliberate simplification that
//! avoids per-side counters.  Auto-repeat events and non-modifier keys leave
//! the state unchanged.

use vstd::prelude::*;

use crate::keys::KeyCode;
use crate::keys::KeyPhase;
use crate::keys::ModifierClass;
use crate::keys::classify_modifier;
use crate::keys::modifier_class;

verus! {

/// The three logical modifiers, each held or not.
#[derive(Clone, Copy, Debug, PartialEq, Eq, Structural)]
pub struct Modifiers {
    pub shift: bool,
    pub ctrl: bool,
    pub alt: bool,
}

impl Modifiers {
    /// True when no modifier is held.
    pub open spec fn is_none_held(self) -> bool {
        self === (Modifiers { shift: false, ctrl: false, alt: false })
    }
}

impl Default for Modifiers {
    /// The initial state: no modifier held.
    fn default() -> (m: Modifiers)
        ensures
            m.is_none_held(),
    {
        Modifiers { shift: false, ctrl: false, alt: false }
    }
}

/// The held state of one modifier class within a state.
pub open spec fn class_held(m: Modifiers, c: ModifierClass) -> bool {
    match c {
        ModifierClass::Shift => m.shift,
        ModifierClass::Ctrl => m.ctrl,
        ModifierClass::Alt => m.alt,
    }
}

/// The new held state of a tracked modifier after one event on one of its
/// own keys: a press holds it, a release clears it, a repeat keeps it.
pub open spec fn tracked_after(phase: KeyPhase, was_held: bool) -> bool {
    match phase {
        KeyPhase::Press => true,
        KeyPhase::Release => false,
        KeyPhase::Repeat => was_held,
    }
}

/// The modifier state after one raw key event.  Only the class of the event's
/// key (if it is a modifier key at all) changes; the other two are untouched.
pub open spec fn apply_key(m: Modifiers, key: KeyCode, phase: KeyPhase) -> Modifiers {
    match modifier_class(key) {
        Some(ModifierClass::Shift) => Modifiers {
            shift: tracked_after(phase, m.shift),
            ctrl: m.ctrl,
            alt: m.alt,
        },
        Some(ModifierClass::Ctrl) => Modifiers {
            shift: m.shift,
            ctrl: tracked_after(phase, m.ctrl),
            alt: m.alt,
        },
        Some(ModifierClass::Alt) => Modifiers {
            shift: m.shift,
            ctrl: m.ctrl,
            alt: tracked_after(phase, m.alt),
        },
        None => m,
    }
}

/// Updates the modifier state from one raw key event.
pub fn update_modifiers(m: &mut Modifiers, key: KeyCode, phase: KeyPhase)
    ensures
        *final(m) == apply_key(*old(m), key, phase),
{
    match classify_modifier(key) {
        Some(ModifierClass::Shift) => {
            match phase {
                KeyPhase::Press => {
                    m.shift = true;
                },
                KeyPhase::Release => {
                    m.shift = false;
                },
                KeyPhase::Repeat => {},
            }
        },
        Some(ModifierClass::Ctrl) => {
            match phase {
                KeyPhase::Press => {
                    m.ctrl = true;
                },
                KeyPhase::Release => {
                    m.ctrl = false;
                },
                KeyPhase::Repeat => {},
            }
        },
        Some(ModifierClass::Alt) => {
            match phase {
                KeyPhase::Press => {
                    m.alt = true;
                },
                KeyPhase::Release => {
                    m.alt = false;
                },
                KeyPhase::Repeat => {},
            }
        },
        None => {},
    }
}

/// A modifier set with one class switched on and the others kept.
pub open spec fn with_class_set(m: Modifiers, c: ModifierClass) -> Modifiers {
    match c {
        ModifierClass::Shift => Modifiers { shift: true, ctrl: m.ctrl, alt: m.alt },
        ModifierClass::Ctrl => Modifiers { shift: m.shift, ctrl: true, alt: m.alt },
        ModifierClass::Alt => Modifiers { shift: m.shift, ctrl: m.ctrl, alt: true },
    }
}

/// Switches one modifier class on, keeping the other two.
pub fn enable_class(m: &mut Modifiers, c: ModifierClass)
    ensures
        *final(m) == with_class_set(*old(m), c),
{
    match c {
        ModifierClass::Shift => {
            m.shift = true;
        },
        ModifierClass::Ctrl => {
            m.ctrl = true;
        },
        ModifierClass::Alt => {
            m.alt = true;
        },
    }
}

/// The modifier state after a whole sequence of raw key events, applied in
/// order to an initial state.
pub open spec fn apply_key_events(m: Modifiers, events: Seq<(KeyCode, KeyPhase)>) -> Modifiers
    decreases events.len(),
{
    if events.len() == 0 {
        m
    } else {
        apply_key(apply_key_events(m, events.drop_last()), events.last().0, events.last().1)
    }
}

/// Releasing either physical variant of a modifier reads that modifier as not
/// held: after any event sequence whose last event releases a key of class
/// `c`, the tracked state of `c` is false, whatever was pressed before.
pub proof fn lemma_release_clears_class(
    m: Modifiers,
    events: Seq<(KeyCode, KeyPhase)>,
    c: ModifierClass,
)
    requires
        events.len() > 0,
        modifier_class(events.last().0) == Some(c),
        events.last().1 == KeyPhase::Release,
    ensures
        !class_held(apply_key_events(m, events), c),
{
}

/// A key outside the three modifier classes never changes the modifier state.
pub proof fn lemma_non_modifier_ignored(m: Modifiers, key: KeyCode, phase: KeyPhase)
    requires
        modifier_class(key) is None,
    ensures
        apply_key(m, key, phase) == m,
{
}

} // verus!
