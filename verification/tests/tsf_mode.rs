//! The Windows text service's mode, its compartments and its preserved keys.

use lib::keys::{KeyCombo, KeyEvent, KeyModifiers, Modifiers};
use lib::tsf::mode::{
    is_english, is_keyboard_open, keyboard_open_write, next_conversion_mode, InputSettings,
    ModeService, ModeSync, TsfAction, CONVERSION_RESTORE_GUARD_MS, NATIVE,
};
use lib::tsf::preserved::{key_event, preserved_key, switch_mode_key, PreservedKey};
use lib::tsf::tap::{SwitchKey, SwitchKeys};

#[test]
fn conversion_mode_round_trips_and_keeps_other_bits() {
    for value in [None, Some(0), Some(NATIVE), Some(0x18), Some(0x19), Some(-1)] {
        for english in [false, true] {
            let written = next_conversion_mode(value, english);
            assert_eq!(is_english(Some(written)), english);
            let read = value.unwrap_or(NATIVE);
            assert_eq!(written & !NATIVE, read & !NATIVE);
        }
    }
    assert_eq!(next_conversion_mode(Some(0x18), false), 0x19);
    assert_eq!(next_conversion_mode(None, true), 0);
    assert!(!is_english(None));
}

#[test]
fn keyboard_compartment_is_written_only_when_it_differs() {
    assert!(is_keyboard_open(None));
    assert!(!is_keyboard_open(Some(0)));
    assert_eq!(keyboard_open_write(None, true), None);
    assert_eq!(keyboard_open_write(None, false), Some(0));
    assert_eq!(keyboard_open_write(Some(0), true), Some(1));
    assert_eq!(keyboard_open_write(Some(5), true), None);
    for value in [None, Some(0), Some(1), Some(7)] {
        for open in [false, true] {
            let after = keyboard_open_write(value, open).or(value);
            assert_eq!(is_keyboard_open(after), open);
        }
    }
}

fn active_service() -> ModeService {
    let mut service = ModeService::new();
    service.activate(10_000, false, true);
    service
}

#[test]
fn switching_commits_then_redraws_then_reports() {
    let mut service = active_service();
    assert!(!service.english);
    let out = service.set_english_mode(true);
    assert!(service.english);
    assert_eq!(
        out,
        vec![TsfAction::CommitPending, TsfAction::RefreshIndicator, TsfAction::ReportMode]
    );
}

#[test]
fn english_is_refused_while_the_builtin_mode_is_off() {
    let mut service = active_service();
    let mut out = Vec::new();
    service.apply_mode_settings(false, SwitchKeys::none(), &mut out);
    assert!(!service.enabled);
    assert!(service.set_english_mode(true).is_empty());
    assert!(!service.english);
    assert!(service.sync_from_keyboard_open(Some(0)) == vec![TsfAction::CancelTap]);
    assert!(!service.english);
}

#[test]
fn turning_the_builtin_mode_off_goes_back_to_chinese() {
    let mut service = active_service();
    service.set_english_mode(true);
    let mut out = Vec::new();
    service.apply_mode_settings(false, SwitchKeys::none(), &mut out);
    assert!(!service.english);
    assert_eq!(
        out,
        vec![TsfAction::RefreshIndicator, TsfAction::UnadviseModeSinks, TsfAction::RemoveLangBarItem]
    );
}

#[test]
fn the_restoring_write_back_after_activation_is_ignored() {
    let mut service = active_service();
    let english = Some(0);
    assert!(service.sync_from_conversion_mode(10_500, english).is_empty());
    assert!(!service.english);
    let out = service.sync_from_conversion_mode(10_000 + CONVERSION_RESTORE_GUARD_MS, english);
    assert!(service.english);
    assert_eq!(out, vec![TsfAction::CommitPending, TsfAction::NotifyLangBar, TsfAction::ReportMode]);
}

#[test]
fn the_system_toggle_flips_the_mode_and_cancels_the_tap() {
    let mut service = active_service();
    let out = service.sync_from_keyboard_open(Some(0));
    assert!(service.english);
    assert_eq!(
        out,
        vec![
            TsfAction::CancelTap,
            TsfAction::CommitPending,
            TsfAction::NotifyLangBar,
            TsfAction::ReportMode
        ]
    );
    assert_eq!(service.sync_from_keyboard_open(Some(0)), vec![TsfAction::CancelTap]);
}

#[test]
fn the_server_mode_is_adopted_without_reporting_back() {
    let mut service = active_service();
    let settings = InputSettings::defaults();
    let out = service.sync_mode_from_server(Some(Ok(ModeSync { input: settings, english: Some(true) })));
    assert!(service.english);
    assert_eq!(out, vec![TsfAction::CommitPending, TsfAction::RefreshIndicator]);
    assert_eq!(service.sync_mode_from_server(Some(Err(()))), vec![TsfAction::Disconnect]);
    assert!(service.sync_mode_from_server(None).is_empty());
}

#[test]
fn focus_gained_asks_the_server() {
    let mut service = ModeService::new();
    assert_eq!(
        service.set_thread_focus(true),
        vec![TsfAction::EnsureConnected, TsfAction::SyncFromServer]
    );
    assert!(service.set_thread_focus(true).is_empty());
    assert!(service.set_thread_focus(false).is_empty());
}

#[test]
fn ctrl_alt_space_is_registered_only_while_checked() {
    let mut service = active_service();
    let mut out = Vec::new();
    let keys = SwitchKeys::none().with(SwitchKey::CtrlAltSpace, true);
    service.apply_mode_settings(true, keys, &mut out);
    assert_eq!(out, vec![TsfAction::RegisterSwitchKey]);
    service.switch_key_registered(true);
    let out = service.deactivate();
    assert_eq!(
        out,
        vec![
            TsfAction::UnadviseModeSinks,
            TsfAction::RemoveLangBarItem,
            TsfAction::CommitPending,
            TsfAction::UnregisterSwitchKey
        ]
    );
    assert!(!service.active);
}

#[test]
fn activation_without_a_server_applies_the_defaults() {
    let mut service = ModeService::new();
    let out = service.activate(5, false, false);
    assert_eq!(service.input_settings, Some(InputSettings::defaults()));
    assert_eq!(service.guard_until, Some(5 + CONVERSION_RESTORE_GUARD_MS));
    assert_eq!(out.last(), Some(&TsfAction::AdviseModeSinks));
    assert!(service.active);
    let mut late = ModeService::new();
    late.activate(u64::MAX - 1, true, true);
    assert_eq!(late.guard_until, Some(u64::MAX));
}

#[test]
fn preserved_keys_have_one_bit_per_modifier() {
    assert_eq!(switch_mode_key(), PreservedKey { vkey: 0x20, modifiers: 3 });
    let combo = KeyCombo {
        modifiers: Modifiers { option: true, shift: true, control: true, command: true },
        key: 't',
    };
    assert_eq!(preserved_key(combo), PreservedKey { vkey: 0x54, modifiers: 0x0F });
    let event = key_event(combo, true);
    assert_eq!(
        event,
        KeyEvent {
            virtual_key: 0x54,
            character: Some('t'),
            modifiers: KeyModifiers { ctrl: true, shift: true, alt: true, win: true, caps: false, english_mode: true },
            release: false,
        }
    );
}
