//! The keys registered with TSF as preserved keys: "translate the selection" (a
//! configured combination) and Ctrl + Alt + Space (switch the mode). Combinations with
//! Alt never reach the keystroke sink, so TSF matches them before the application.

use vstd::prelude::*;

use crate::keys::{ascii_upper, to_ascii_uppercase, KeyCombo, KeyEvent, KeyModifiers};

verus! {

pub const TF_MOD_ALT: u32 = 0x0001;
pub const TF_MOD_CONTROL: u32 = 0x0002;
pub const TF_MOD_SHIFT: u32 = 0x0004;
/// The left Windows key (not exported by the bindings).
pub const TF_MOD_LWIN: u32 = 0x08;

pub const VK_SPACE: u32 = 0x20;

/// A preserved key: virtual key code and modifier bits.
#[derive(Debug, Clone, Copy, PartialEq, Eq, Structural)]
pub struct PreservedKey {
    pub vkey: u32,
    pub modifiers: u32,
}

pub open spec fn modifier_bits(control: bool, option: bool, shift: bool, command: bool) -> int {
    (if control {
        TF_MOD_CONTROL
    } else {
        0u32
    }) + (if option {
        TF_MOD_ALT
    } else {
        0u32
    }) + (if shift {
        TF_MOD_SHIFT
    } else {
        0u32
    }) + (if command {
        TF_MOD_LWIN
    } else {
        0u32
    })
}

/// Ctrl + Alt + Space. Ctrl + Space is the system's own input method toggle on Chinese
/// Windows and never reaches a preserved key.
pub fn switch_mode_key() -> (r: PreservedKey)
    ensures
        r == (PreservedKey { vkey: VK_SPACE, modifiers: 3u32 }),
{
    PreservedKey { vkey: VK_SPACE, modifiers: TF_MOD_CONTROL + TF_MOD_ALT }
}

/// The preserved key of a combination: the upper-case letter as key code, one bit per
/// modifier.
pub fn preserved_key(combo: KeyCombo) -> (r: PreservedKey)
    ensures
        r.vkey == ascii_upper(combo.key) as u32,
        r.modifiers as int == modifier_bits(
            combo.modifiers.control,
            combo.modifiers.option,
            combo.modifiers.shift,
            combo.modifiers.command,
        ),
{
    let m = combo.modifiers;
    let mut modifiers: u32 = 0;
    if m.control {
        modifiers = modifiers + TF_MOD_CONTROL;
    }
    if m.option {
        modifiers = modifiers + TF_MOD_ALT;
    }
    if m.shift {
        modifiers = modifiers + TF_MOD_SHIFT;
    }
    if m.command {
        modifiers = modifiers + TF_MOD_LWIN;
    }
    PreservedKey { vkey: to_ascii_uppercase(combo.key) as u32, modifiers }
}

/// The key event sent to the server when the preserved key fires: the router compares
/// character and physical modifiers with the configuration.
pub fn key_event(combo: KeyCombo, english_mode: bool) -> (r: KeyEvent)
    ensures
        r == (KeyEvent {
            virtual_key: ascii_upper(combo.key) as u32,
            character: Some(combo.key),
            modifiers: KeyModifiers {
                ctrl: combo.modifiers.control,
                shift: combo.modifiers.shift,
                alt: combo.modifiers.option,
                win: combo.modifiers.command,
                caps: false,
                english_mode,
            },
            release: false,
        }),
{
    let m = combo.modifiers;
    KeyEvent::new(
        to_ascii_uppercase(combo.key) as u32,
        Some(combo.key),
        KeyModifiers {
            ctrl: m.control,
            shift: m.shift,
            alt: m.option,
            win: m.command,
            caps: false,
            english_mode,
        },
    )
}

} // verus!
