//! The poller state machine: normal polling, error backoff with rescan, and
//! cooperative shutdown.
//!
//! The poller owns the chord table and the live modifier state.  The caller
//! runs the actual loop — it reads devices, sleeps, rescans and sends — and
//! reports what happened as plain values; every decision is taken here.  In
//! `Polling` each key event updates the modifier state and is matched
//! against the table.  A genuine read error (anything outside the expected
//! would-block class of a non-blocking read) enters `ErrorBackoff`; once the
//! cooldown has elapsed the caller re-enumerates devices, and a successful
//! rescan returns to `Polling` with the modifier state reset to all-false,
//! since held state cannot be trusted across a device swap.  A failed rescan
//! stays in backoff for another cooldown.  When the shared running flag
//! reads false the poller stops for good.

use vstd::prelude::*;

use crate::chords::ChordTable;
use crate::chords::event_match;
use crate::keys::KeyCode;
use crate::keys::KeyPhase;
use crate::modifiers::Modifiers;
use crate::modifiers::apply_key;
use crate::modifiers::update_modifiers;
use crate::events::TriggerEvent;

verus! {

/// How long a poller waits in backoff before it tries a rescan, in
/// milliseconds.
pub const RESCAN_COOLDOWN_MS: u64 = 10000;

/// Where the poller stands.
#[derive(Clone, Copy, Debug, PartialEq, Eq, Structural)]
pub enum PollerPhase {
    /// Normal operation: key events are tracked and matched.
    Polling,
    /// A device failed at the given time; waiting out the cooldown.
    ErrorBackoff { since_ms: u64 },
    /// The running flag was observed false; terminal.
    Stopped,
}

/// Whether a backoff begun at `since_ms` has waited out the cooldown by
/// `now_ms`.
pub open spec fn cooldown_elapsed(since_ms: u64, now_ms: u64) -> bool {
    since_ms <= now_ms && now_ms - since_ms >= RESCAN_COOLDOWN_MS
}

/// The poller's owned state: the chord table, the live modifier state and
/// the phase of the state machine.
#[derive(Debug)]
pub struct Poller {
    pub table: ChordTable,
    pub mods: Modifiers,
    pub phase: PollerPhase,
}

impl Poller {
    /// A poller ready to run: polling, with no modifier held.
    pub fn new(table: ChordTable) -> (p: Poller)
        ensures
            p.table.chords@ == table.chords@,
            p.mods.is_none_held(),
            p.phase == PollerPhase::Polling,
    {
        Poller {
            table,
            mods: Modifiers { shift: false, ctrl: false, alt: false },
            phase: PollerPhase::Polling,
        }
    }

    /// Observes the shared running flag at the top of an iteration: once it
    /// reads false the poller stops, and a stopped poller stays stopped.
    pub fn observe_running(&mut self, running: bool)
        ensures
            final(self).phase == if running {
                old(self).phase
            } else {
                PollerPhase::Stopped
            },
            final(self).mods == old(self).mods,
            final(self).table.chords@ == old(self).table.chords@,
    {
        if !running {
            self.phase = PollerPhase::Stopped;
        }
    }

    /// Feeds one raw key event through the tracker and the chord table.
    /// While polling, the modifier state is updated first and the press is
    /// then matched against the table under the updated state; the returned
    /// event, if any, carries the matched chord's index.  Outside polling
    /// the event is ignored.
    pub fn handle_key_event(&mut self, key: KeyCode, phase: KeyPhase) -> (r: Option<TriggerEvent>)
        ensures
            final(self).table.chords@ == old(self).table.chords@,
            final(self).phase == old(self).phase,
            old(self).phase is Polling ==> {
                &&& final(self).mods == apply_key(old(self).mods, key, phase)
                &&& (r matches Some(ev) ==> ev.phase == KeyPhase::Press && event_match(
                    old(self).table.chords@,
                    key,
                    phase,
                    final(self).mods,
                ) == Some(ev.chord_index as int))
                &&& (r is None ==> event_match(
                    old(self).table.chords@,
                    key,
                    phase,
                    final(self).mods,
                ) is None)
            },
            !(old(self).phase is Polling) ==> final(self).mods == old(self).mods && r is None,
    {
        if !matches!(self.phase, PollerPhase::Polling) {
            return None;
        }
        update_modifiers(&mut self.mods, key, phase);
        match self.table.match_event(key, phase, &self.mods) {
            Some(index) => Some(TriggerEvent { chord_index: index, phase: KeyPhase::Press }),
            None => None,
        }
    }

    /// Notes the outcome of one device read.  The would-block class is the
    /// expected result of a non-blocking read with no pending data and
    /// changes nothing; any other error, seen while polling, enters backoff
    /// at the given time.
    pub fn note_read_error(&mut self, would_block: bool, now_ms: u64)
        ensures
            final(self).phase == if old(self).phase is Polling && !would_block {
                PollerPhase::ErrorBackoff { since_ms: now_ms }
            } else {
                old(self).phase
            },
            final(self).mods == old(self).mods,
            final(self).table.chords@ == old(self).table.chords@,
    {
        if matches!(self.phase, PollerPhase::Polling) && !would_block {
            self.phase = PollerPhase::ErrorBackoff { since_ms: now_ms };
        }
    }

    /// Whether the caller should attempt a rescan now: the poller is in
    /// backoff and the cooldown has elapsed.
    pub fn rescan_due(&self, now_ms: u64) -> (r: bool)
        ensures
            r == (self.phase matches PollerPhase::ErrorBackoff { since_ms } && cooldown_elapsed(
                since_ms,
                now_ms,
            )),
    {
        match self.phase {
            PollerPhase::ErrorBackoff { since_ms } => {
                since_ms <= now_ms && now_ms - since_ms >= RESCAN_COOLDOWN_MS
            },
            _ => false,
        }
    }

    /// Takes the outcome of a rescan attempt while in backoff.  Success
    /// returns to polling with the modifier state reset to all-false: held
    /// state from before the device swap must not survive it.  Failure stays
    /// in backoff, restarting the cooldown at the given time.  Outside
    /// backoff nothing changes.
    pub fn handle_rescan_result(&mut self, found_keyboards: bool, now_ms: u64)
        ensures
            final(self).table.chords@ == old(self).table.chords@,
            old(self).phase is ErrorBackoff ==> {
                &&& found_keyboards ==> final(self).phase == PollerPhase::Polling
                    && final(self).mods.is_none_held()
                &&& !found_keyboards ==> final(self).phase == (PollerPhase::ErrorBackoff {
                    since_ms: now_ms,
                }) && final(self).mods == old(self).mods
            },
            !(old(self).phase is ErrorBackoff) ==> final(self).phase == old(self).phase
                && final(self).mods == old(self).mods,
    {
        if matches!(self.phase, PollerPhase::ErrorBackoff { .. }) {
            if found_keyboards {
                self.phase = PollerPhase::Polling;
                self.mods = Modifiers { shift: false, ctrl: false, alt: false };
            } else {
                self.phase = PollerPhase::ErrorBackoff { since_ms: now_ms };
            }
        }
    }
}

} // verus!
