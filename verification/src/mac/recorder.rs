//! The shortcut recorder button of the preferences: a click starts recording, the next
//! combination (or modifier tap, for the switch keys) is recorded, Escape or losing the
//! focus cancels.

use vstd::prelude::*;

use super::mode::{MacModifier, MacSwitchKey};
use super::modifiers::{from_flags, modifier_flag, modifier_flag_spec, modifier_key, modifier_key_spec};
use crate::keys::{ascii_lower, is_ascii_alnum, to_ascii_lowercase, KeyCombo, Modifiers};
use crate::text::string_of;

verus! {

/// Key code of Escape: cancels recording.
pub const ESCAPE_KEY: u16 = 53;

/// Key code of Backspace: pressed alone, turns the shortcut off.
pub const BACKSPACE_KEY: u16 = 51;

/// How the configuration writes a shortcut that is turned off.
pub open spec fn off_key() -> Seq<char> {
    "none"@
}

/// How the button shows a shortcut that is turned off.
pub open spec fn off_label() -> Seq<char> {
    "未设置"@
}

/// What a recorder records.
#[derive(Debug, Clone, Copy, PartialEq, Eq, Structural)]
pub enum RecorderKind {
    /// Modifiers only (the translation keys used with digits): hold them and press any key.
    ModifiersOnly,
    /// Modifiers plus a letter or digit; a key without modifiers does not count.
    Combo,
    /// A switch key: a modifier tapped alone (left or right), or a combination.
    SingleOrCombo,
}

/// A value recorded; the caller spells it for the configuration and for people and
/// passes both to [`KeyRecorder::finish`].
#[derive(Debug, Clone, Copy, PartialEq, Eq, Structural)]
pub enum Recorded {
    Modifiers(Modifiers),
    Combo(KeyCombo),
    Switch(MacSwitchKey),
}

/// What a key did to the recorder.
#[derive(Debug, Clone, Copy, PartialEq, Eq, Structural)]
pub enum RecorderInput {
    /// Not recording: the button handles the key as buttons do.
    Unhandled,
    /// Recording was cancelled.
    Cancelled,
    /// Backspace alone: the shortcut is turned off (`none`) and recording has ended; the
    /// button sends its action.
    Cleared,
    /// Recording goes on.
    Waiting,
    /// This value is recorded.
    Record(Recorded),
}

/// The recorder's state.
#[derive(Debug, Clone)]
pub struct KeyRecorder {
    pub kind: RecorderKind,
    /// Waiting for the user's keys.
    pub recording: bool,
    /// For switch keys: a modifier is down and nothing interrupted it.
    pub held: Option<MacModifier>,
    /// The current value as the configuration writes it.
    pub recorded: String,
    /// The current value as people read it; the title returns to it on cancel.
    pub label: String,
    /// The button's title.
    pub title: String,
}

pub open spec fn recording_title() -> Seq<char> {
    "按下新的快捷键…"@
}

impl KeyRecorder {
    pub fn new(kind: RecorderKind) -> (r: KeyRecorder)
        ensures
            r.kind == kind,
            !r.recording,
            r.held is None,
            r.recorded@.len() == 0 && r.label@.len() == 0 && r.title@.len() == 0,
    {
        KeyRecorder {
            kind,
            recording: false,
            held: None,
            recorded: String::new(),
            label: String::new(),
            title: String::new(),
        }
    }

    /// The configuration changed: show its value (not while recording).
    pub fn show(&mut self, key: &String, label: &String)
        ensures
            old(self).recording ==> *final(self) == *old(self),
            !old(self).recording ==> final(self).recorded == *key && final(self).label == *label
                && final(self).title == *label && final(self).recording == old(self).recording
                && final(self).held == old(self).held && final(self).kind == old(self).kind,
    {
        if self.recording {
            return;
        }
        self.recorded = key.clone();
        self.label = label.clone();
        self.title = label.clone();
    }

    /// The last recorded value as the configuration writes it.
    pub fn recorded(&self) -> (r: String)
        ensures
            r == self.recorded,
    {
        self.recorded.clone()
    }

    /// A click: start recording.
    pub fn mouse_down(&mut self)
        ensures
            final(self).recording,
            final(self).held is None,
            final(self).title@ == recording_title(),
            final(self).recorded == old(self).recorded && final(self).label == old(self).label,
            final(self).kind == old(self).kind,
    {
        self.recording = true;
        self.held = None;
        self.title = string_of("按下新的快捷键…");
    }

    /// A key went down (`character` ignores modifiers). Escape cancels; Backspace alone
    /// turns the shortcut off (recorded as `none`, shown as 未设置); any key ends a
    /// switch-key tap; without modifiers the recorder keeps waiting. Records the
    /// modifiers, or the modifiers with the lower-cased letter or digit.
    pub fn key_down(&mut self, key_code: u16, flags: u64, character: Option<char>) -> (r:
        RecorderInput)
        ensures
            !old(self).recording ==> r == RecorderInput::Unhandled && *final(self) == *old(self),
            old(self).recording && key_code == ESCAPE_KEY ==> r == RecorderInput::Cancelled
                && final(self).is_cancelled(*old(self)),
            old(self).recording && key_code == BACKSPACE_KEY && from_flags_spec(flags).spec_is_empty()
                ==> r == RecorderInput::Cleared && !final(self).recording && final(self).held is None
                && final(self).recorded@ == off_key() && final(self).label@ == off_label()
                && final(self).title@ == off_label() && final(self).kind == old(self).kind,
            old(self).recording && key_code != ESCAPE_KEY && !(key_code == BACKSPACE_KEY
                && from_flags_spec(flags).spec_is_empty()) ==> *final(self) == (KeyRecorder {
                held: None,
                ..*old(self)
            }) && ({
                let m = from_flags_spec(flags);
                if m.spec_is_empty() {
                    r == RecorderInput::Waiting
                } else if old(self).kind == RecorderKind::ModifiersOnly {
                    r == RecorderInput::Record(Recorded::Modifiers(m))
                } else {
                    match character {
                        Some(c) if is_ascii_alnum(c) => r == RecorderInput::Record(
                            Recorded::Combo(KeyCombo { modifiers: m, key: ascii_lower(c) }),
                        ),
                        _ => r == RecorderInput::Waiting,
                    }
                }
            }),
    {
        if !self.recording {
            return RecorderInput::Unhandled;
        }
        if key_code == ESCAPE_KEY {
            self.cancel();
            return RecorderInput::Cancelled;
        }
        let modifiers = from_flags(flags);
        if key_code == BACKSPACE_KEY && modifiers.is_empty() {
            self.finish(string_of("none"), string_of("未设置"));
            return RecorderInput::Cleared;
        }
        self.held = None;
        if modifiers.is_empty() {
            return RecorderInput::Waiting;
        }
        if self.kind == RecorderKind::ModifiersOnly {
            return RecorderInput::Record(Recorded::Modifiers(modifiers));
        }
        match character {
            Some(c) => if ('a' <= c && c <= 'z') || ('A' <= c && c <= 'Z') || ('0' <= c && c
                <= '9') {
                RecorderInput::Record(
                    Recorded::Combo(KeyCombo { modifiers, key: to_ascii_lowercase(c) }),
                )
            } else {
                RecorderInput::Waiting
            },
            None => RecorderInput::Waiting,
        }
    }

    /// A modifier went down or up while recording a switch key: its press starts a tap,
    /// its release (with nothing in between) records the tap.
    pub fn flags_changed(&mut self, key_code: u16, flags: u64) -> (r: RecorderInput)
        ensures
            !old(self).recording || old(self).kind != RecorderKind::SingleOrCombo
                ==> r == RecorderInput::Unhandled && *final(self) == *old(self),
            old(self).recording && old(self).kind == RecorderKind::SingleOrCombo ==> match modifier_key_spec(
                key_code,
            ) {
                None => r == RecorderInput::Waiting && *final(self) == *old(self),
                Some(m) => if flags & modifier_flag_spec(m) != 0 {
                    r == RecorderInput::Waiting && *final(self) == (KeyRecorder {
                        held: Some(m),
                        ..*old(self)
                    })
                } else if old(self).held != Some(m) {
                    r == RecorderInput::Waiting && *final(self) == *old(self)
                } else {
                    r == RecorderInput::Record(Recorded::Switch(MacSwitchKey::Modifier(m)))
                        && *final(self) == (KeyRecorder { held: None, ..*old(self) })
                },
            },
    {
        if !self.recording || self.kind != RecorderKind::SingleOrCombo {
            return RecorderInput::Unhandled;
        }
        let modifier = match modifier_key(key_code) {
            Some(m) => m,
            None => return RecorderInput::Waiting,
        };
        if flags & modifier_flag(modifier) != 0 {
            self.held = Some(modifier);
            return RecorderInput::Waiting;
        }
        if self.held != Some(modifier) {
            return RecorderInput::Waiting;
        }
        self.held = None;
        RecorderInput::Record(Recorded::Switch(MacSwitchKey::Modifier(modifier)))
    }

    /// The recorded value, spelled for the configuration (`key`) and for people
    /// (`label`): recording ends and the title shows it. The button then sends its
    /// action.
    pub fn finish(&mut self, key: String, label: String)
        ensures
            !final(self).recording,
            final(self).held is None,
            final(self).recorded == key,
            final(self).label == label,
            final(self).title == label,
            final(self).kind == old(self).kind,
    {
        self.recording = false;
        self.held = None;
        self.recorded = key;
        self.title = label.clone();
        self.label = label;
    }

    pub open spec fn is_cancelled(self, before: KeyRecorder) -> bool {
        &&& !self.recording
        &&& self.held is None
        &&& self.title == before.label
        &&& self.label == before.label
        &&& self.recorded == before.recorded
        &&& self.kind == before.kind
    }

    /// Recording ends without a value; the title shows the current value again.
    pub fn cancel(&mut self)
        ensures
            final(self).is_cancelled(*old(self)),
    {
        self.recording = false;
        self.held = None;
        self.title = self.label.clone();
    }

    /// The button lost the focus: an unfinished recording is cancelled.
    pub fn resign_first_responder(&mut self)
        ensures
            old(self).recording ==> final(self).is_cancelled(*old(self)),
            !old(self).recording ==> *final(self) == *old(self),
    {
        if self.recording {
            self.cancel();
        }
    }
}

pub open spec fn from_flags_spec(flags: u64) -> Modifiers {
    Modifiers {
        option: flags & super::modifiers::FLAG_OPTION != 0,
        shift: flags & super::modifiers::FLAG_SHIFT != 0,
        control: flags & super::modifiers::FLAG_CONTROL != 0,
        command: flags & super::modifiers::FLAG_COMMAND != 0,
    }
}

} // verus!
