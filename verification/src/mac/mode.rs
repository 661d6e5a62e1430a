//! The Chinese / English mode of the macOS front end, and the tap detection of its
//! switch keys. Caps Lock may drive the mode (lit = English), or only lock the case;
//! modifier taps configured as switch keys flip or set the mode.

use vstd::prelude::*;

use crate::keys::KeyCombo;

verus! {

/// A modifier key, left or right.
#[derive(Debug, Clone, Copy, PartialEq, Eq, Structural)]
pub enum MacModifier {
    LeftCommand,
    RightCommand,
    LeftShift,
    RightShift,
    LeftOption,
    RightOption,
    LeftControl,
    RightControl,
}

/// A configured switch key: a modifier tapped alone, or a combination.
#[derive(Debug, Clone, Copy, PartialEq, Eq, Structural)]
pub enum MacSwitchKey {
    Modifier(MacModifier),
    Combo(KeyCombo),
}

/// What a switch key does.
#[derive(Debug, Clone, Copy, PartialEq, Eq, Structural)]
pub enum MacSwitchAction {
    /// Flip the mode.
    Toggle,
    /// Go to English.
    English,
    /// Go to Chinese.
    Chinese,
}

/// The configured switch keys: one key that flips the mode, and a pair (to English,
/// to Chinese).
#[derive(Debug, Clone, Copy)]
pub struct MacSwitchPlan {
    pub toggle: Option<MacSwitchKey>,
    pub dual: Option<(MacSwitchKey, MacSwitchKey)>,
}

impl MacSwitchPlan {
    pub open spec fn action_spec(self, key: MacModifier) -> Option<MacSwitchAction> {
        if self.toggle == Some(MacSwitchKey::Modifier(key)) {
            Some(MacSwitchAction::Toggle)
        } else {
            match self.dual {
                Some((english, chinese)) => if english == MacSwitchKey::Modifier(key) {
                    Some(MacSwitchAction::English)
                } else if chinese == MacSwitchKey::Modifier(key) {
                    Some(MacSwitchAction::Chinese)
                } else {
                    None
                },
                None => None,
            }
        }
    }

    /// What tapping modifier `key` does; `None` when it is no switch key.
    pub fn modifier_action(&self, key: MacModifier) -> (r: Option<MacSwitchAction>)
        ensures
            r == self.action_spec(key),
    {
        if self.toggle == Some(MacSwitchKey::Modifier(key)) {
            return Some(MacSwitchAction::Toggle);
        }
        match self.dual {
            Some((english, chinese)) => if english == MacSwitchKey::Modifier(key) {
                Some(MacSwitchAction::English)
            } else if chinese == MacSwitchKey::Modifier(key) {
                Some(MacSwitchAction::Chinese)
            } else {
                None
            },
            None => None,
        }
    }
}

/// The mode, with the last Caps Lock state seen (to recognise its flips).
#[derive(Debug, Clone, Copy, PartialEq, Eq, Structural, Default)]
pub struct ModeState {
    pub english: bool,
    pub caps: bool,
}

impl ModeState {
    pub fn english(&self) -> (r: bool)
        ensures
            r == self.english,
    {
        self.english
    }

    /// The state after a read of the physical Caps Lock, and whether the mode changed.
    pub open spec fn caps_read(self, caps: bool, switches_mode: bool) -> (ModeState, bool) {
        if caps == self.caps {
            (self, false)
        } else if !switches_mode {
            (ModeState { caps, ..self }, false)
        } else {
            (ModeState { caps, english: caps }, self.english != caps)
        }
    }

    /// The state after setting the mode, and whether it really changed.
    pub open spec fn english_set(self, english: bool) -> (ModeState, bool) {
        (ModeState { english, ..self }, self.english != english)
    }

    /// A read of the physical Caps Lock. Only a flip counts: when Caps Lock drives the
    /// mode, lit is English; otherwise only the case lock is remembered. Returns whether
    /// the mode changed.
    pub fn sync_caps(&mut self, caps: bool, switches_mode: bool) -> (changed: bool)
        ensures
            (*final(self), changed) == old(self).caps_read(caps, switches_mode),
    {
        if caps == self.caps {
            return false;
        }
        self.caps = caps;
        if !switches_mode {
            return false;
        }
        let changed = self.english != caps;
        self.english = caps;
        changed
    }

    /// Sets the mode; returns whether it really changed.
    pub fn set_english(&mut self, english: bool) -> (changed: bool)
        ensures
            (*final(self), changed) == old(self).english_set(english),
    {
        if self.english == english {
            return false;
        }
        self.english = english;
        true
    }
}

/// When Caps Lock drives the mode, a flip of it leaves the mode English exactly when
/// it is lit; a second read of the same state changes nothing and reports no change.
pub proof fn law_caps_lock_read_twice(s: ModeState, caps: bool, switches_mode: bool)
    ensures
        ({
            let (once, _) = s.caps_read(caps, switches_mode);
            &&& (switches_mode && caps != s.caps ==> once.english == caps)
            &&& once.caps_read(caps, switches_mode) == (once, false)
        }),
{
}

/// Setting the mode twice to the same value reports a change at most once: the second
/// setting reports none and leaves the state as it was.
pub proof fn law_set_english_twice(s: ModeState, english: bool)
    ensures
        ({
            let (once, _) = s.english_set(english);
            once.english_set(english) == (once, false)
        }),
{
}

/// Tap detection: a switch key pressed and released with no other key in between.
/// Only modifier keys count (their presses and releases come as flag changes).
#[derive(Debug, Clone, Copy, PartialEq, Eq, Structural, Default)]
pub struct SwitchMatcher {
    /// A switch key is down and nothing interrupted it yet.
    pub held: Option<MacModifier>,
}

impl SwitchMatcher {
    /// The matcher after a modifier went down or up, with the action completed.
    pub open spec fn on_modifier(self, key: MacModifier, down: bool, plan: MacSwitchPlan) -> (
        SwitchMatcher,
        Option<MacSwitchAction>,
    ) {
        if down {
            if plan.action_spec(key) is Some {
                (SwitchMatcher { held: Some(key) }, None)
            } else {
                (self, None)
            }
        } else if self.held != Some(key) {
            (self, None)
        } else {
            (SwitchMatcher { held: None }, plan.action_spec(key))
        }
    }

    /// Any ordinary key: the tap is off.
    pub fn key_down(&mut self)
        ensures
            final(self).held is None,
    {
        self.held = None;
    }

    /// A modifier went down or up. Down: a switch key starts a tap (other modifiers
    /// do not interrupt one). Up: releasing the held switch key completes the tap and
    /// gives its action, once; another key's release leaves the tap alone.
    pub fn modifier_changed(&mut self, key: MacModifier, down: bool, plan: &MacSwitchPlan) -> (r:
        Option<MacSwitchAction>)
        ensures
            (*final(self), r) == old(self).on_modifier(key, down, *plan),
    {
        let action = plan.modifier_action(key);
        if down {
            if action.is_some() {
                self.held = Some(key);
            }
            return None;
        }
        if self.held != Some(key) {
            return None;
        }
        self.held = None;
        action
    }
}

/// A switch key pressed and released alone gives its action, and a second report of
/// the release gives nothing.
pub proof fn law_clean_tap_fires_once(m: SwitchMatcher, key: MacModifier, plan: MacSwitchPlan)
    requires
        plan.action_spec(key) is Some,
    ensures
        ({
            let pressed = m.on_modifier(key, true, plan).0;
            let (released, action) = pressed.on_modifier(key, false, plan);
            &&& action == plan.action_spec(key)
            &&& released.on_modifier(key, false, plan).1 is None
        }),
{
}

/// An ordinary key between the press and the release of a switch key cancels its tap.
pub proof fn law_key_between_cancels_tap(m: SwitchMatcher, key: MacModifier, plan: MacSwitchPlan)
    ensures
        ({
            let pressed = m.on_modifier(key, true, plan).0;
            let interrupted = SwitchMatcher { held: None, ..pressed };
            interrupted.on_modifier(key, false, plan).1 is None
        }),
{
}

/// A modifier that is no switch key, pressed and released while a switch key is held,
/// neither acts nor cancels the tap.
pub proof fn law_other_modifier_keeps_tap(
    m: SwitchMatcher,
    key: MacModifier,
    other: MacModifier,
    plan: MacSwitchPlan,
)
    requires
        plan.action_spec(key) is Some,
        plan.action_spec(other) is None,
        other != key,
    ensures
        ({
            let pressed = m.on_modifier(key, true, plan).0;
            let (other_down, a1) = pressed.on_modifier(other, true, plan);
            let (other_up, a2) = other_down.on_modifier(other, false, plan);
            &&& a1 is None
            &&& a2 is None
            &&& other_up.on_modifier(key, false, plan).1 == plan.action_spec(key)
        }),
{
}

} // verus!
