//! Modifier keys of macOS: the virtual key codes of flag-change events (left and right
//! told apart) and the modifier flag bits of events.

use vstd::prelude::*;

use super::mode::MacModifier;
use crate::keys::Modifiers;

verus! {

/// Flag bit of Caps Lock.
pub const FLAG_CAPS_LOCK: u64 = 0x1_0000;
/// Flag bit of Shift.
pub const FLAG_SHIFT: u64 = 0x2_0000;
/// Flag bit of Control.
pub const FLAG_CONTROL: u64 = 0x4_0000;
/// Flag bit of Option.
pub const FLAG_OPTION: u64 = 0x8_0000;
/// Flag bit of Command.
pub const FLAG_COMMAND: u64 = 0x10_0000;

impl MacModifier {
    /// Every modifier that can be a switch key.
    pub fn all() -> (r: Vec<MacModifier>)
        ensures
            r@ == seq![
                MacModifier::LeftCommand,
                MacModifier::RightCommand,
                MacModifier::LeftShift,
                MacModifier::RightShift,
                MacModifier::LeftOption,
                MacModifier::RightOption,
                MacModifier::LeftControl,
                MacModifier::RightControl,
            ],
    {
        let mut v = Vec::new();
        v.push(MacModifier::LeftCommand);
        v.push(MacModifier::RightCommand);
        v.push(MacModifier::LeftShift);
        v.push(MacModifier::RightShift);
        v.push(MacModifier::LeftOption);
        v.push(MacModifier::RightOption);
        v.push(MacModifier::LeftControl);
        v.push(MacModifier::RightControl);
        v
    }
}

pub open spec fn modifier_key_spec(key_code: u16) -> Option<MacModifier> {
    if key_code == 55 {
        Some(MacModifier::LeftCommand)
    } else if key_code == 54 {
        Some(MacModifier::RightCommand)
    } else if key_code == 56 {
        Some(MacModifier::LeftShift)
    } else if key_code == 60 {
        Some(MacModifier::RightShift)
    } else if key_code == 58 {
        Some(MacModifier::LeftOption)
    } else if key_code == 61 {
        Some(MacModifier::RightOption)
    } else if key_code == 59 {
        Some(MacModifier::LeftControl)
    } else if key_code == 62 {
        Some(MacModifier::RightControl)
    } else {
        None
    }
}

/// The modifier of a flag-change event's key code; `None` for codes that are no
/// modifier a switch key can be (Caps Lock, the 0 of remote desktop tools).
pub fn modifier_key(key_code: u16) -> (r: Option<MacModifier>)
    ensures
        r == modifier_key_spec(key_code),
{
    match key_code {
        55 => Some(MacModifier::LeftCommand),
        54 => Some(MacModifier::RightCommand),
        56 => Some(MacModifier::LeftShift),
        60 => Some(MacModifier::RightShift),
        58 => Some(MacModifier::LeftOption),
        61 => Some(MacModifier::RightOption),
        59 => Some(MacModifier::LeftControl),
        62 => Some(MacModifier::RightControl),
        _ => None,
    }
}

pub open spec fn modifier_flag_spec(key: MacModifier) -> u64 {
    match key {
        MacModifier::LeftCommand | MacModifier::RightCommand => FLAG_COMMAND,
        MacModifier::LeftShift | MacModifier::RightShift => FLAG_SHIFT,
        MacModifier::LeftOption | MacModifier::RightOption => FLAG_OPTION,
        MacModifier::LeftControl | MacModifier::RightControl => FLAG_CONTROL,
    }
}

/// The flag bit of a modifier: set while it is down.
pub fn modifier_flag(key: MacModifier) -> (r: u64)
    ensures
        r == modifier_flag_spec(key),
{
    match key {
        MacModifier::LeftCommand | MacModifier::RightCommand => FLAG_COMMAND,
        MacModifier::LeftShift | MacModifier::RightShift => FLAG_SHIFT,
        MacModifier::LeftOption | MacModifier::RightOption => FLAG_OPTION,
        MacModifier::LeftControl | MacModifier::RightControl => FLAG_CONTROL,
    }
}

/// The modifier set of event flags. Caps Lock is a state, not a modifier, and is left
/// out.
pub fn from_flags(flags: u64) -> (r: Modifiers)
    ensures
        r.option == (flags & FLAG_OPTION != 0),
        r.shift == (flags & FLAG_SHIFT != 0),
        r.control == (flags & FLAG_CONTROL != 0),
        r.command == (flags & FLAG_COMMAND != 0),
{
    Modifiers {
        option: flags & FLAG_OPTION != 0,
        shift: flags & FLAG_SHIFT != 0,
        control: flags & FLAG_CONTROL != 0,
        command: flags & FLAG_COMMAND != 0,
    }
}

/// Caps Lock is lit in the flags.
pub fn caps_lock_on(flags: u64) -> (r: bool)
    ensures
        r == (flags & FLAG_CAPS_LOCK != 0),
{
    flags & FLAG_CAPS_LOCK != 0
}

/// Shift is down in the flags.
pub fn shift_down(flags: u64) -> (r: bool)
    ensures
        r == (flags & FLAG_SHIFT != 0),
{
    flags & FLAG_SHIFT != 0
}

} // verus!
