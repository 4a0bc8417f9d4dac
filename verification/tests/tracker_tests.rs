use hotkey_core::keys::KeyCode;
use hotkey_core::keys::KeyPhase;
use hotkey_core::keys::key_phase_of_value;
use hotkey_core::modifiers::Modifiers;
use hotkey_core::modifiers::update_modifiers;

const LEFTSHIFT: u16 = 42;
const RIGHTSHIFT: u16 = 54;
const LEFTCTRL: u16 = 29;
const RIGHTALT: u16 = 100;
const F8: u16 = 66;

fn fresh() -> Modifiers {
    Modifiers { shift: false, ctrl: false, alt: false }
}

#[test]
fn press_sets_and_release_clears() {
    let mut m = fresh();
    update_modifiers(&mut m, KeyCode::new(LEFTSHIFT), KeyPhase::Press);
    assert!(m.shift);
    update_modifiers(&mut m, KeyCode::new(LEFTSHIFT), KeyPhase::Release);
    assert!(!m.shift);
}

#[test]
fn releasing_either_variant_clears() {
    let mut m = fresh();
    update_modifiers(&mut m, KeyCode::new(LEFTSHIFT), KeyPhase::Press);
    update_modifiers(&mut m, KeyCode::new(RIGHTSHIFT), KeyPhase::Press);
    update_modifiers(&mut m, KeyCode::new(LEFTSHIFT), KeyPhase::Release);
    assert!(!m.shift);
}

#[test]
fn classes_are_independent() {
    let mut m = fresh();
    update_modifiers(&mut m, KeyCode::new(LEFTCTRL), KeyPhase::Press);
    update_modifiers(&mut m, KeyCode::new(RIGHTALT), KeyPhase::Press);
    assert!(m.ctrl && m.alt && !m.shift);
    update_modifiers(&mut m, KeyCode::new(LEFTCTRL), KeyPhase::Release);
    assert!(!m.ctrl && m.alt);
}

#[test]
fn repeat_keeps_state() {
    let mut m = fresh();
    update_modifiers(&mut m, KeyCode::new(RIGHTSHIFT), KeyPhase::Press);
    update_modifiers(&mut m, KeyCode::new(RIGHTSHIFT), KeyPhase::Repeat);
    assert!(m.shift);
    update_modifiers(&mut m, KeyCode::new(RIGHTSHIFT), KeyPhase::Release);
    update_modifiers(&mut m, KeyCode::new(RIGHTSHIFT), KeyPhase::Repeat);
    assert!(!m.shift);
}

#[test]
fn non_modifier_keys_are_ignored() {
    let mut m = fresh();
    update_modifiers(&mut m, KeyCode::new(F8), KeyPhase::Press);
    assert_eq!(m, fresh());
}

#[test]
fn default_state_holds_nothing() {
    assert_eq!(Modifiers::default(), fresh());
}

#[test]
fn phase_decoding() {
    assert_eq!(key_phase_of_value(1), KeyPhase::Press);
    assert_eq!(key_phase_of_value(0), KeyPhase::Release);
    assert_eq!(key_phase_of_value(2), KeyPhase::Repeat);
    assert_eq!(key_phase_of_value(-7), KeyPhase::Repeat);
}
