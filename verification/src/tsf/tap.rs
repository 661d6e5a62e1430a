//! Tapping a switch key (Shift or Ctrl, each can be checked): the key goes down and up
//! with no other key in between. A system hotkey whose second key the system swallows
//! looks like a tap; the text service cancels the tap when such a hotkey fires.

use vstd::prelude::*;

verus! {

pub const VK_SHIFT: u32 = 0x10;
pub const VK_CONTROL: u32 = 0x11;
pub const VK_LSHIFT: u32 = 0xA0;
pub const VK_RSHIFT: u32 = 0xA1;
pub const VK_LCONTROL: u32 = 0xA2;
pub const VK_RCONTROL: u32 = 0xA3;

/// A switch key.
#[derive(Debug, Clone, Copy, PartialEq, Eq, Structural)]
pub enum SwitchKey {
    /// Shift tapped alone.
    Shift,
    /// Ctrl tapped alone.
    Control,
    /// The combination Ctrl + Alt + Space (a preserved key, no tap).
    CtrlAltSpace,
}

/// The checked switch keys (`[shortcut] switch_mode`).
#[derive(Debug, Clone, Copy, PartialEq, Eq, Structural, Default)]
pub struct SwitchKeys {
    pub shift: bool,
    pub control: bool,
    pub ctrl_alt_space: bool,
}

impl SwitchKeys {
    /// No switch key checked.
    pub fn none() -> (r: SwitchKeys)
        ensures
            r == (SwitchKeys { shift: false, control: false, ctrl_alt_space: false }),
    {
        SwitchKeys { shift: false, control: false, ctrl_alt_space: false }
    }

    /// The same set with `key` checked or not.
    pub fn with(self, key: SwitchKey, on: bool) -> (r: SwitchKeys)
        ensures
            r == match key {
                SwitchKey::Shift => SwitchKeys { shift: on, ..self },
                SwitchKey::Control => SwitchKeys { control: on, ..self },
                SwitchKey::CtrlAltSpace => SwitchKeys { ctrl_alt_space: on, ..self },
            },
    {
        match key {
            SwitchKey::Shift => SwitchKeys { shift: on, ..self },
            SwitchKey::Control => SwitchKeys { control: on, ..self },
            SwitchKey::CtrlAltSpace => SwitchKeys { ctrl_alt_space: on, ..self },
        }
    }
}

pub open spec fn tap_key_spec(keys: SwitchKeys, vk: u32) -> Option<SwitchKey> {
    if keys.shift && (vk == VK_SHIFT || vk == VK_LSHIFT || vk == VK_RSHIFT) {
        Some(SwitchKey::Shift)
    } else if keys.control && (vk == VK_CONTROL || vk == VK_LCONTROL || vk == VK_RCONTROL) {
        Some(SwitchKey::Control)
    } else {
        None
    }
}

/// The checked tap key this virtual key is (left and right count alike); the
/// combination key never taps.
pub fn tap_key(keys: SwitchKeys, vk: u32) -> (r: Option<SwitchKey>)
    ensures
        r == tap_key_spec(keys, vk),
{
    if keys.shift && (vk == VK_SHIFT || vk == VK_LSHIFT || vk == VK_RSHIFT) {
        Some(SwitchKey::Shift)
    } else if keys.control && (vk == VK_CONTROL || vk == VK_LCONTROL || vk == VK_RCONTROL) {
        Some(SwitchKey::Control)
    } else {
        None
    }
}

/// The key was already down (bit 30 of the key message's `lparam`): an auto-repeat.
pub open spec fn is_repeat(lparam: isize) -> bool {
    (lparam >> 30) & 1 != 0
}

/// Tap detection.
#[derive(Debug, Clone, Copy, PartialEq, Eq, Structural, Default)]
pub struct KeyTap {
    /// The switch key that went down, with nothing else since.
    pub pressed: Option<SwitchKey>,
}

impl KeyTap {
    /// The detector after a key went down.
    pub open spec fn after_down(self, vk: u32, lparam: isize, keys: SwitchKeys) -> KeyTap {
        match tap_key_spec(keys, vk) {
            None => KeyTap { pressed: None },
            Some(key) => if is_repeat(lparam) {
                self
            } else {
                KeyTap {
                    pressed: match self.pressed {
                        Some(other) => if other != key {
                            None
                        } else {
                            Some(key)
                        },
                        None => Some(key),
                    },
                }
            },
        }
    }

    /// The detector after a key went up, and whether that release was a tap.
    pub open spec fn after_up(self, vk: u32, keys: SwitchKeys) -> (KeyTap, bool) {
        match tap_key_spec(keys, vk) {
            Some(key) => if self.pressed == Some(key) {
                (KeyTap { pressed: None }, true)
            } else {
                (self, false)
            },
            None => (self, false),
        }
    }

    /// A key went down. Any other key cancels the tap; an auto-repeat changes nothing;
    /// the two switch keys together (Ctrl + Shift changes the layout) are no tap.
    pub fn key_down(&mut self, vk: u32, lparam: isize, keys: SwitchKeys)
        ensures
            *final(self) == old(self).after_down(vk, lparam, keys),
    {
        let key = match tap_key(keys, vk) {
            Some(key) => key,
            None => {
                self.cancel();
                return;
            },
        };
        if (lparam >> 30) & 1 != 0 {
            return;
        }
        let pressed = match self.pressed {
            Some(other) => if other != key {
                None
            } else {
                Some(key)
            },
            None => Some(key),
        };
        self.pressed = pressed;
    }

    /// A key went up: `true` for the release of the switch key that went down alone.
    /// One release counts once.
    pub fn key_up(&mut self, vk: u32, keys: SwitchKeys) -> (tapped: bool)
        ensures
            (*final(self), tapped) == old(self).after_up(vk, keys),
    {
        let key = match tap_key(keys, vk) {
            Some(key) => key,
            None => return false,
        };
        if self.pressed == Some(key) {
            self.pressed = None;
            true
        } else {
            false
        }
    }

    /// Something else happened since the switch key went down: its release is no tap.
    pub fn cancel(&mut self)
        ensures
            final(self).pressed is None,
    {
        self.pressed = None;
    }
}

/// A checked switch key pressed (not an auto-repeat) and released with nothing else in
/// between is a tap, once: reporting the release again is none.
pub proof fn law_clean_tap_fires_once(t: KeyTap, vk: u32, lparam: isize, keys: SwitchKeys)
    requires
        tap_key_spec(keys, vk) is Some,
        !is_repeat(lparam),
        t.pressed is None || t.pressed == tap_key_spec(keys, vk),
    ensures
        ({
            let (released, tapped) = t.after_down(vk, lparam, keys).after_up(vk, keys);
            &&& tapped
            &&& !released.after_up(vk, keys).1
        }),
{
}

/// Any other key going down between the press and the release of a switch key makes
/// the release no tap; so does a cancel (a system hotkey).
pub proof fn law_interruption_cancels_tap(
    t: KeyTap,
    vk: u32,
    lparam: isize,
    other: u32,
    other_lparam: isize,
    keys: SwitchKeys,
)
    requires
        tap_key_spec(keys, other) is None,
    ensures
        !t.after_down(vk, lparam, keys).after_down(other, other_lparam, keys).after_up(vk, keys).1,
        !(KeyTap { pressed: None }).after_up(vk, keys).1,
{
}

/// The two switch keys pressed together (Ctrl + Shift) from rest are no tap, whichever
/// goes up.
pub proof fn law_two_switch_keys_together(
    t: KeyTap,
    first: u32,
    second: u32,
    lparam: isize,
    keys: SwitchKeys,
)
    requires
        tap_key_spec(keys, first) is Some,
        tap_key_spec(keys, second) is Some,
        tap_key_spec(keys, first) != tap_key_spec(keys, second),
        !is_repeat(lparam),
        t.pressed is None,
    ensures
        ({
            let both = t.after_down(first, lparam, keys).after_down(second, lparam, keys);
            &&& !both.after_up(first, keys).1
            &&& !both.after_up(second, keys).1
        }),
{
}

/// An auto-repeat of a switch key after its tap fired does not arm another tap.
pub proof fn law_auto_repeat_does_not_rearm(vk: u32, lparam: isize, keys: SwitchKeys)
    requires
        is_repeat(lparam),
    ensures
        !(KeyTap { pressed: None }).after_down(vk, lparam, keys).after_up(vk, keys).1,
{
}

/// A key that is no checked switch key never taps.
pub proof fn law_unchecked_key_never_taps(t: KeyTap, vk: u32, keys: SwitchKeys)
    requires
        tap_key_spec(keys, vk) is None,
    ensures
        !t.after_up(vk, keys).1,
{
}

} // verus!
