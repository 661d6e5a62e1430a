//! Switch-key taps of the Windows text service.

use lib::tsf::tap::{KeyTap, SwitchKey, SwitchKeys, VK_CONTROL, VK_LCONTROL, VK_LSHIFT, VK_RSHIFT};

const DOWN: isize = 0;

fn only(key: SwitchKey) -> SwitchKeys {
    SwitchKeys::none().with(key, true)
}

#[test]
fn shift_tap_fires_only_when_nothing_else_interrupts() {
    let mut tap = KeyTap::default();
    let keys = only(SwitchKey::Shift);
    tap.key_down(VK_LSHIFT, DOWN, keys);
    assert!(tap.key_up(VK_LSHIFT, keys));
    assert!(!tap.key_up(VK_LSHIFT, keys));

    tap.key_down(VK_LSHIFT, DOWN, keys);
    tap.key_down(0x41, DOWN, keys);
    assert!(!tap.key_up(VK_LSHIFT, keys));
}

#[test]
fn only_checked_keys_fire() {
    let mut tap = KeyTap::default();
    let keys = only(SwitchKey::Control);
    tap.key_down(VK_LSHIFT, DOWN, keys);
    assert!(!tap.key_up(VK_LSHIFT, keys));
    tap.key_down(VK_LCONTROL, DOWN, keys);
    assert!(tap.key_up(VK_LCONTROL, keys));

    for keys in [SwitchKeys::none(), only(SwitchKey::CtrlAltSpace)] {
        tap.key_down(VK_LSHIFT, DOWN, keys);
        assert!(!tap.key_up(VK_LSHIFT, keys));
        tap.key_down(VK_LCONTROL, DOWN, keys);
        assert!(!tap.key_up(VK_LCONTROL, keys));
    }
}

#[test]
fn both_taps_work_when_both_are_checked_but_not_together() {
    let mut tap = KeyTap::default();
    let keys = only(SwitchKey::Shift).with(SwitchKey::Control, true);
    tap.key_down(VK_LSHIFT, DOWN, keys);
    assert!(tap.key_up(VK_LSHIFT, keys));
    tap.key_down(VK_LCONTROL, DOWN, keys);
    assert!(tap.key_up(VK_LCONTROL, keys));

    tap.key_down(VK_LCONTROL, DOWN, keys);
    tap.key_down(VK_LSHIFT, DOWN, keys);
    assert!(!tap.key_up(VK_LSHIFT, keys));
    assert!(!tap.key_up(VK_LCONTROL, keys));
}

#[test]
fn a_system_hotkey_cancels_the_pending_tap() {
    let mut tap = KeyTap::default();
    let keys = only(SwitchKey::Control);
    tap.key_down(VK_LCONTROL, DOWN, keys);
    tap.cancel();
    assert!(!tap.key_up(VK_LCONTROL, keys));
}

#[test]
fn auto_repeat_does_not_rearm() {
    let mut tap = KeyTap::default();
    let keys = only(SwitchKey::Shift);
    let repeat: isize = 1 << 30;
    tap.key_down(VK_LSHIFT, DOWN, keys);
    assert!(tap.key_up(VK_LSHIFT, keys));
    tap.key_down(VK_LSHIFT, repeat, keys);
    assert!(!tap.key_up(VK_LSHIFT, keys));
}

#[test]
fn left_and_right_and_generic_codes_count_alike() {
    let keys = only(SwitchKey::Shift).with(SwitchKey::Control, true);
    assert_eq!(lib::tsf::tap::tap_key(keys, VK_RSHIFT), Some(SwitchKey::Shift));
    assert_eq!(lib::tsf::tap::tap_key(keys, 0x10), Some(SwitchKey::Shift));
    assert_eq!(lib::tsf::tap::tap_key(keys, VK_CONTROL), Some(SwitchKey::Control));
    assert_eq!(lib::tsf::tap::tap_key(keys, 0x20), None);
    let mut tap = KeyTap::default();
    tap.key_down(VK_LSHIFT, DOWN, keys);
    assert!(tap.key_up(VK_RSHIFT, keys));
}

#[test]
fn a_repeat_while_held_keeps_the_tap() {
    let mut tap = KeyTap::default();
    let keys = only(SwitchKey::Shift);
    tap.key_down(VK_LSHIFT, DOWN, keys);
    tap.key_down(VK_LSHIFT, 1 << 30, keys);
    assert!(tap.key_up(VK_LSHIFT, keys));
}
