use hotkey_core::errors::HotkeyError;
use hotkey_core::parse::parse_hotkey;

#[test]
fn parse_ctrl_alt_f1() {
    let h = parse_hotkey("Ctrl+Alt+F1").unwrap();
    assert!(h.modifiers.ctrl);
    assert!(h.modifiers.alt);
    assert!(!h.modifiers.shift);
    assert_eq!(h.key.code, 59);
}

#[test]
fn parse_unknown_modifier_names_token() {
    let e = parse_hotkey("Foo+F1").unwrap_err();
    assert_eq!(e, HotkeyError::UnknownModifier(String::from("Foo")));
    assert_eq!(e.message(), "Unknown modifier: Foo");
}

#[test]
fn parse_unknown_key_names_token() {
    let e = parse_hotkey("F13").unwrap_err();
    assert_eq!(e, HotkeyError::UnknownKey(String::from("F13")));
    assert_eq!(e.message(), "Unknown key: F13");
}

#[test]
fn parse_plain_f8() {
    let h = parse_hotkey("F8").unwrap();
    assert_eq!(h.key.code, 66);
    assert!(!h.modifiers.shift && !h.modifiers.ctrl && !h.modifiers.alt);
}

#[test]
fn parse_shift_f9() {
    let h = parse_hotkey("Shift+F9").unwrap();
    assert_eq!(h.key.code, 67);
    assert!(h.modifiers.shift);
    assert!(!h.modifiers.ctrl && !h.modifiers.alt);
}

#[test]
fn parse_is_case_blind() {
    let h = parse_hotkey("shift+f9").unwrap();
    assert_eq!(h.key.code, 67);
    assert!(h.modifiers.shift);

    let h = parse_hotkey("CONTROL+f1").unwrap();
    assert_eq!(h.key.code, 59);
    assert!(h.modifiers.ctrl);
}

#[test]
fn parse_named_keys() {
    assert_eq!(parse_hotkey("ScrollLock").unwrap().key.code, 70);
    assert_eq!(parse_hotkey("Pause").unwrap().key.code, 119);
    assert_eq!(parse_hotkey("Insert").unwrap().key.code, 110);
}

#[test]
fn parse_high_function_keys() {
    assert_eq!(parse_hotkey("F10").unwrap().key.code, 68);
    assert_eq!(parse_hotkey("F11").unwrap().key.code, 87);
    assert_eq!(parse_hotkey("F12").unwrap().key.code, 88);
}

#[test]
fn parse_letter_and_digit_keys() {
    assert_eq!(parse_hotkey("A").unwrap().key.code, 30);
    assert_eq!(parse_hotkey("q").unwrap().key.code, 16);
    assert_eq!(parse_hotkey("0").unwrap().key.code, 11);
    assert_eq!(parse_hotkey("5").unwrap().key.code, 6);
}

#[test]
fn parse_empty_string_is_unknown_key() {
    let e = parse_hotkey("").unwrap_err();
    assert_eq!(e, HotkeyError::UnknownKey(String::new()));
}

#[test]
fn parse_trailing_plus_is_unknown_key() {
    let e = parse_hotkey("Shift+").unwrap_err();
    assert_eq!(e, HotkeyError::UnknownKey(String::new()));
}

#[test]
fn parse_leading_plus_is_unknown_modifier() {
    let e = parse_hotkey("+F1").unwrap_err();
    assert_eq!(e, HotkeyError::UnknownModifier(String::new()));
}

#[test]
fn parse_repeated_modifier() {
    let h = parse_hotkey("Shift+Shift+F1").unwrap();
    assert!(h.modifiers.shift);
    assert!(!h.modifiers.ctrl && !h.modifiers.alt);
    assert_eq!(h.key.code, 59);
}

#[test]
fn parse_stops_at_first_bad_modifier() {
    let e = parse_hotkey("Bad+Worse+F1").unwrap_err();
    assert_eq!(e, HotkeyError::UnknownModifier(String::from("Bad")));
}
