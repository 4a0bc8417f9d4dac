use hotkey_core::chords::ChordTable;
use hotkey_core::keys::KeyCode;
use hotkey_core::keys::KeyPhase;
use hotkey_core::modifiers::Modifiers;

const F8: u16 = 66;
const F7: u16 = 65;

fn none_held() -> Modifiers {
    Modifiers { shift: false, ctrl: false, alt: false }
}

fn shift_held() -> Modifiers {
    Modifiers { shift: true, ctrl: false, alt: false }
}

#[test]
fn plain_and_shift_variants_pick_their_own_index() {
    let mut table = ChordTable::new();
    assert_eq!(table.register(KeyCode::new(F8), none_held()), 0);
    assert_eq!(table.register(KeyCode::new(F8), shift_held()), 1);

    let plain = table.match_event(KeyCode::new(F8), KeyPhase::Press, &none_held());
    assert_eq!(plain, Some(0));

    let shifted = table.match_event(KeyCode::new(F8), KeyPhase::Press, &shift_held());
    assert_eq!(shifted, Some(1));

    let ctrl = Modifiers { shift: false, ctrl: true, alt: false };
    let with_ctrl = table.match_event(KeyCode::new(F8), KeyPhase::Press, &ctrl);
    assert_eq!(with_ctrl, None);
}

#[test]
fn modifier_match_is_exact_not_superset() {
    let mut table = ChordTable::new();
    table.register(KeyCode::new(F8), shift_held());
    let shift_and_ctrl = Modifiers { shift: true, ctrl: true, alt: false };
    assert_eq!(table.match_event(KeyCode::new(F8), KeyPhase::Press, &shift_and_ctrl), None);
}

#[test]
fn only_presses_match() {
    let mut table = ChordTable::new();
    table.register(KeyCode::new(F8), none_held());
    assert_eq!(table.match_event(KeyCode::new(F8), KeyPhase::Release, &none_held()), None);
    assert_eq!(table.match_event(KeyCode::new(F8), KeyPhase::Repeat, &none_held()), None);
}

#[test]
fn other_keys_do_not_match() {
    let mut table = ChordTable::new();
    table.register(KeyCode::new(F8), none_held());
    assert_eq!(table.match_event(KeyCode::new(F7), KeyPhase::Press, &none_held()), None);
}

#[test]
fn duplicate_registration_yields_first_index() {
    let mut table = ChordTable::new();
    table.register(KeyCode::new(F8), none_held());
    table.register(KeyCode::new(F8), none_held());
    assert_eq!(table.match_event(KeyCode::new(F8), KeyPhase::Press, &none_held()), Some(0));
}

#[test]
fn registration_order_gives_indices() {
    let mut table = ChordTable::new();
    assert_eq!(table.register(KeyCode::new(F7), none_held()), 0);
    assert_eq!(table.register(KeyCode::new(F8), none_held()), 1);
    assert_eq!(table.register(KeyCode::new(F8), shift_held()), 2);
    assert_eq!(table.len(), 3);
    assert_eq!(table.match_event(KeyCode::new(F8), KeyPhase::Press, &shift_held()), Some(2));
}
