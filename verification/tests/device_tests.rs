use hotkey_core::devices::is_event_device_name;
use hotkey_core::devices::select_keyboards;
use hotkey_core::devices::supports_keyboard_keys;
use hotkey_core::errors::HotkeyError;
use hotkey_core::events::HotkeyEvent;
use hotkey_core::events::hotkey_event_for_index;

#[test]
fn no_candidates_is_an_error_not_an_empty_success() {
    let r = select_keyboards(&Vec::new());
    assert_eq!(r, Err(HotkeyError::NoKeyboardsFound));
}

#[test]
fn candidates_without_keyboard_keys_are_an_error() {
    let mouse = vec![272u16, 273, 274];
    let r = select_keyboards(&vec![mouse]);
    assert_eq!(r, Err(HotkeyError::NoKeyboardsFound));
}

#[test]
fn keyboards_are_selected_in_scan_order() {
    let mouse = vec![272u16, 273];
    let keyboard_a = vec![1u16, 30, 42];
    let keyboard_b = vec![30u16];
    let r = select_keyboards(&vec![mouse, keyboard_a, keyboard_b]);
    assert_eq!(r, Ok(vec![1, 2]));
}

#[test]
fn keyboard_support_needs_the_baseline_key() {
    assert!(supports_keyboard_keys(&vec![5u16, 30, 99]));
    assert!(!supports_keyboard_keys(&vec![5u16, 99]));
    assert!(!supports_keyboard_keys(&Vec::new()));
}

#[test]
fn event_device_names() {
    assert!(is_event_device_name("event0"));
    assert!(is_event_device_name("event17"));
    assert!(is_event_device_name("event"));
    assert!(!is_event_device_name("mouse0"));
    assert!(!is_event_device_name("even"));
    assert!(!is_event_device_name(""));
}

#[test]
fn no_keyboards_message_points_at_permissions() {
    let msg = HotkeyError::NoKeyboardsFound.message();
    assert_eq!(
        msg,
        "No keyboards found. Make sure you're in the 'input' group or running as root."
    );
}

#[test]
fn chord_indices_select_consumer_actions() {
    assert_eq!(hotkey_event_for_index(0), Some(HotkeyEvent::Improve));
    assert_eq!(hotkey_event_for_index(1), Some(HotkeyEvent::ImproveShowOriginal));
    assert_eq!(hotkey_event_for_index(2), None);
    assert_eq!(hotkey_event_for_index(17), None);
}
