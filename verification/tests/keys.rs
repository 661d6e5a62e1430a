//! Key codes and chords.

use lib::keys::{
    adjust_key, digit, digit_key, is_keypad, is_modifier_key, page_key, to_ascii_lowercase,
    to_ascii_uppercase, KeyEvent, KeyModifiers, Modifiers,
};

#[test]
fn the_chord_drops_the_state_bits() {
    let m = KeyModifiers { ctrl: true, caps: true, english_mode: true, ..KeyModifiers::default() };
    assert_eq!(m.chord(), KeyModifiers { ctrl: true, ..KeyModifiers::default() });
    assert!(m.has_command_key());
    assert!(!KeyModifiers { shift: true, caps: true, ..KeyModifiers::default() }.has_command_key());
    assert_eq!(KeyModifiers::none(), KeyModifiers::default());
    assert_eq!(
        KeyModifiers::from_modifiers(Modifiers { option: true, shift: false, control: true, command: true }),
        KeyModifiers { ctrl: true, alt: true, win: true, ..KeyModifiers::default() }
    );
    assert!(Modifiers::default().is_empty());
}

#[test]
fn digits_go_by_character_then_by_key_code() {
    let plain = KeyEvent::new(0x33, Some('3'), KeyModifiers::default());
    assert_eq!(digit(&plain), Some(3));
    let shifted = KeyEvent::new(0x33, Some('#'), KeyModifiers::default());
    assert_eq!(digit(&shifted), None);
    let bare = KeyEvent::new(0x39, None, KeyModifiers::default());
    assert_eq!(digit(&bare), Some(9));
    assert_eq!(digit_key(0x30), None);
    assert_eq!(digit_key(0x31), Some(1));
    assert!(is_keypad(0x60) && is_keypad(0x6F) && !is_keypad(0x70));
}

#[test]
fn page_and_adjust_keys() {
    let minus = KeyEvent::new(0xBD, Some('-'), KeyModifiers::default());
    let equal = KeyEvent::new(0xBB, Some('='), KeyModifiers::default());
    assert_eq!(page_key(&minus, ('-', '=')), Some(-1));
    assert_eq!(page_key(&equal, ('-', '=')), Some(1));
    assert_eq!(page_key(&KeyEvent::new(0x22, None, KeyModifiers::default()), ('-', '=')), None);
    assert_eq!(page_key(&KeyEvent::new(0xBC, Some(','), KeyModifiers::default()), ('-', '=')), None);
    assert_eq!(adjust_key(0x4B), Some(true));
    assert_eq!(adjust_key(0x4A), Some(false));
    assert_eq!(adjust_key(0x4C), None);
    assert!(is_modifier_key(0x10) && is_modifier_key(0x11) && is_modifier_key(0x12));
    assert!(!is_modifier_key(0x41));
}

#[test]
fn ascii_case_folding_leaves_other_characters() {
    assert_eq!(to_ascii_lowercase('Q'), 'q');
    assert_eq!(to_ascii_lowercase('中'), '中');
    assert_eq!(to_ascii_uppercase('z'), 'Z');
    assert_eq!(to_ascii_uppercase('1'), '1');
    let e = KeyEvent::new(0x41, Some('a'), KeyModifiers::default());
    assert!(!e.release);
    assert!(e.released().release);
}
