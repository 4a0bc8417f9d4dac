use hotkey_core::chords::ChordTable;
use hotkey_core::events::TriggerEvent;
use hotkey_core::keys::KeyCode;
use hotkey_core::keys::KeyPhase;
use hotkey_core::modifiers::Modifiers;
use hotkey_core::poller::Poller;
use hotkey_core::poller::PollerPhase;
use hotkey_core::poller::RESCAN_COOLDOWN_MS;

const LEFTSHIFT: u16 = 42;
const F8: u16 = 66;

fn none_held() -> Modifiers {
    Modifiers { shift: false, ctrl: false, alt: false }
}

fn shift_held() -> Modifiers {
    Modifiers { shift: true, ctrl: false, alt: false }
}

fn two_chord_table() -> ChordTable {
    let mut table = ChordTable::new();
    table.register(KeyCode::new(F8), none_held());
    table.register(KeyCode::new(F8), shift_held());
    table
}

#[test]
fn press_fires_matching_chord_once() {
    let mut p = Poller::new(two_chord_table());
    let fired = p.handle_key_event(KeyCode::new(F8), KeyPhase::Press);
    assert_eq!(fired, Some(TriggerEvent { chord_index: 0, phase: KeyPhase::Press }));
    let released = p.handle_key_event(KeyCode::new(F8), KeyPhase::Release);
    assert_eq!(released, None);
}

#[test]
fn held_shift_selects_the_shift_variant() {
    let mut p = Poller::new(two_chord_table());
    assert_eq!(p.handle_key_event(KeyCode::new(LEFTSHIFT), KeyPhase::Press), None);
    let fired = p.handle_key_event(KeyCode::new(F8), KeyPhase::Press);
    assert_eq!(fired, Some(TriggerEvent { chord_index: 1, phase: KeyPhase::Press }));
}

#[test]
fn genuine_error_enters_backoff_and_would_block_does_not() {
    let mut p = Poller::new(two_chord_table());
    p.note_read_error(true, 0);
    assert_eq!(p.phase, PollerPhase::Polling);
    p.note_read_error(false, 123);
    assert_eq!(p.phase, PollerPhase::ErrorBackoff { since_ms: 123 });
}

#[test]
fn rescan_waits_out_the_cooldown() {
    let mut p = Poller::new(two_chord_table());
    p.note_read_error(false, 1000);
    assert!(!p.rescan_due(1000));
    assert!(!p.rescan_due(1000 + RESCAN_COOLDOWN_MS - 1));
    assert!(p.rescan_due(1000 + RESCAN_COOLDOWN_MS));
    assert!(!p.rescan_due(0));
}

#[test]
fn rescan_resets_modifier_state() {
    let mut p = Poller::new(two_chord_table());
    assert_eq!(p.handle_key_event(KeyCode::new(LEFTSHIFT), KeyPhase::Press), None);
    assert!(p.mods.shift);

    p.note_read_error(false, 0);
    assert_eq!(p.phase, PollerPhase::ErrorBackoff { since_ms: 0 });
    assert!(p.rescan_due(RESCAN_COOLDOWN_MS));
    p.handle_rescan_result(true, RESCAN_COOLDOWN_MS);

    assert_eq!(p.phase, PollerPhase::Polling);
    assert!(!p.mods.shift);

    let fired = p.handle_key_event(KeyCode::new(F8), KeyPhase::Press);
    assert_eq!(fired, Some(TriggerEvent { chord_index: 0, phase: KeyPhase::Press }));
}

#[test]
fn failed_rescan_stays_in_backoff() {
    let mut p = Poller::new(two_chord_table());
    p.handle_key_event(KeyCode::new(LEFTSHIFT), KeyPhase::Press);
    p.note_read_error(false, 0);
    p.handle_rescan_result(false, RESCAN_COOLDOWN_MS);
    assert_eq!(p.phase, PollerPhase::ErrorBackoff { since_ms: RESCAN_COOLDOWN_MS });
    assert!(p.mods.shift);
    assert!(!p.rescan_due(RESCAN_COOLDOWN_MS + 1));
    assert!(p.rescan_due(2 * RESCAN_COOLDOWN_MS));
}

#[test]
fn events_are_ignored_outside_polling() {
    let mut p = Poller::new(two_chord_table());
    p.note_read_error(false, 0);
    assert_eq!(p.handle_key_event(KeyCode::new(F8), KeyPhase::Press), None);
}

#[test]
fn running_flag_stops_the_poller_for_good() {
    let mut p = Poller::new(two_chord_table());
    p.observe_running(true);
    assert_eq!(p.phase, PollerPhase::Polling);
    p.observe_running(false);
    assert_eq!(p.phase, PollerPhase::Stopped);
    p.observe_running(true);
    assert_eq!(p.phase, PollerPhase::Stopped);
    assert_eq!(p.handle_key_event(KeyCode::new(F8), KeyPhase::Press), None);
}
