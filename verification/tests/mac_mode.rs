//! The macOS mode: Caps Lock, the switch-key taps, and the modifier key codes.

use lib::mac::mode::{MacModifier, MacSwitchAction, MacSwitchKey, MacSwitchPlan, ModeState, SwitchMatcher};
use lib::mac::modifiers::{
    caps_lock_on, from_flags, modifier_flag, modifier_key, shift_down, FLAG_CAPS_LOCK, FLAG_OPTION,
    FLAG_SHIFT,
};

fn dual() -> MacSwitchPlan {
    MacSwitchPlan {
        toggle: None,
        dual: Some((
            MacSwitchKey::Modifier(MacModifier::LeftCommand),
            MacSwitchKey::Modifier(MacModifier::RightCommand),
        )),
    }
}

#[test]
fn caps_lock_drives_the_mode_when_it_is_the_switch_key() {
    let mut mode = ModeState::default();
    assert!(!mode.english());
    assert!(mode.sync_caps(true, true), "亮起来就是切到英文");
    assert!(mode.english());
    assert!(!mode.sync_caps(true, true), "状态没变就不算改过");
    assert!(mode.sync_caps(false, true));
    assert!(!mode.english());
}

#[test]
fn caps_lock_only_locks_case_when_it_is_not_the_switch_key() {
    let mut mode = ModeState::default();
    mode.set_english(true);
    assert!(!mode.sync_caps(true, false), "不参与切换时跳变不改模式");
    assert!(mode.english());
    assert!(!mode.sync_caps(false, false));
    assert!(mode.english());
}

#[test]
fn set_english_reports_changes() {
    let mut mode = ModeState::default();
    assert!(mode.set_english(true));
    assert!(!mode.set_english(true));
    assert!(mode.set_english(false));
}

#[test]
fn a_clean_tap_fires_once() {
    let mut matcher = SwitchMatcher::default();
    let plan = dual();
    assert_eq!(matcher.modifier_changed(MacModifier::LeftCommand, true, &plan), None);
    assert_eq!(
        matcher.modifier_changed(MacModifier::LeftCommand, false, &plan),
        Some(MacSwitchAction::English)
    );
    assert_eq!(matcher.modifier_changed(MacModifier::LeftCommand, false, &plan), None);
    matcher.modifier_changed(MacModifier::RightCommand, true, &plan);
    assert_eq!(
        matcher.modifier_changed(MacModifier::RightCommand, false, &plan),
        Some(MacSwitchAction::Chinese)
    );
}

#[test]
fn another_key_in_between_cancels_the_tap() {
    let mut matcher = SwitchMatcher::default();
    let plan = dual();
    matcher.modifier_changed(MacModifier::LeftCommand, true, &plan);
    matcher.key_down();
    assert_eq!(matcher.modifier_changed(MacModifier::LeftCommand, false, &plan), None);
}

#[test]
fn other_modifiers_do_not_cancel_but_are_not_switch_keys() {
    let mut matcher = SwitchMatcher::default();
    let plan = dual();
    matcher.modifier_changed(MacModifier::LeftCommand, true, &plan);
    assert_eq!(matcher.modifier_changed(MacModifier::LeftShift, true, &plan), None);
    matcher.modifier_changed(MacModifier::LeftShift, false, &plan);
    assert_eq!(
        matcher.modifier_changed(MacModifier::LeftCommand, false, &plan),
        Some(MacSwitchAction::English)
    );
    matcher.modifier_changed(MacModifier::LeftOption, true, &plan);
    assert_eq!(matcher.modifier_changed(MacModifier::LeftOption, false, &plan), None);
}

#[test]
fn single_key_toggles() {
    let mut matcher = SwitchMatcher::default();
    let plan = MacSwitchPlan {
        toggle: Some(MacSwitchKey::Modifier(MacModifier::RightControl)),
        dual: None,
    };
    matcher.modifier_changed(MacModifier::RightControl, true, &plan);
    assert_eq!(
        matcher.modifier_changed(MacModifier::RightControl, false, &plan),
        Some(MacSwitchAction::Toggle)
    );
}

#[test]
fn keycodes_tell_left_from_right() {
    assert_eq!(modifier_key(55), Some(MacModifier::LeftCommand));
    assert_eq!(modifier_key(54), Some(MacModifier::RightCommand));
    assert_eq!(modifier_key(56), Some(MacModifier::LeftShift));
    assert_eq!(modifier_key(60), Some(MacModifier::RightShift));
    assert_eq!(modifier_key(58), Some(MacModifier::LeftOption));
    assert_eq!(modifier_key(61), Some(MacModifier::RightOption));
    assert_eq!(modifier_key(59), Some(MacModifier::LeftControl));
    assert_eq!(modifier_key(62), Some(MacModifier::RightControl));
    assert_eq!(modifier_key(57), None);
    assert_eq!(modifier_key(0), None);
    assert_eq!(modifier_key(0x41), None);
}

#[test]
fn every_switchable_modifier_has_a_keycode() {
    let keys: Vec<MacModifier> = [55u16, 54, 56, 60, 58, 61, 59, 62]
        .into_iter()
        .filter_map(modifier_key)
        .collect();
    let all = MacModifier::all();
    assert_eq!(keys.len(), all.len());
    for key in all {
        assert!(keys.contains(&key), "{key:?} 少了对应的键码");
    }
}

#[test]
fn a_combo_switch_key_is_no_modifier_tap() {
    let plan = MacSwitchPlan {
        toggle: Some(MacSwitchKey::Combo(lib::keys::KeyCombo {
            modifiers: lib::keys::Modifiers { option: true, shift: false, control: true, command: false },
            key: 'z',
        })),
        dual: None,
    };
    assert_eq!(plan.modifier_action(MacModifier::LeftControl), None);
    let mut matcher = SwitchMatcher::default();
    matcher.modifier_changed(MacModifier::LeftControl, true, &plan);
    assert_eq!(matcher.modifier_changed(MacModifier::LeftControl, false, &plan), None);
}

#[test]
fn flags_tell_caps_lock_and_shift() {
    assert!(caps_lock_on(FLAG_CAPS_LOCK | FLAG_SHIFT));
    assert!(!caps_lock_on(FLAG_SHIFT));
    assert!(shift_down(FLAG_SHIFT));
    assert!(!shift_down(FLAG_CAPS_LOCK));
    let m = from_flags(FLAG_CAPS_LOCK | FLAG_OPTION);
    assert!(m.option && !m.shift && !m.control && !m.command);
    assert_eq!(modifier_flag(MacModifier::RightShift), FLAG_SHIFT);
    assert_eq!(modifier_flag(MacModifier::LeftOption), FLAG_OPTION);
}
