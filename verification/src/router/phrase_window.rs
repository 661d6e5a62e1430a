//! The Windows "learn a phrase" window: a phrase box, a pinyin box, a hint line and a
//! "record" button. It asks the worker that owns the engine (with
//! [`LearnPhraseWork`]) and shows what comes back. Closing only hides it.

use vstd::prelude::*;

use super::learn_phrase::{LearnPhraseReply, LearnPhraseWork};
use crate::text::{append, contains_whitespace, has_white_space, string_of, trim, trimmed};

verus! {

/// The window's state.
#[derive(Debug, Clone)]
pub struct PhraseWindow {
    pub phrase: String,
    pub pinyin: String,
    /// The hint line (error, success, not found).
    pub hint: String,
    /// The user edited the pinyin: lookups no longer overwrite it (until the phrase is
    /// emptied).
    pub pinyin_dirty: bool,
    /// A text is being set by the program: its change notification is no edit.
    pub setting: bool,
    pub visible: bool,
}

pub open spec fn learned_hint(learned: Seq<char>) -> Seq<char> {
    "已录入「"@ + learned + "」"@
}

impl PhraseWindow {
    pub fn new() -> (r: PhraseWindow)
        ensures
            r.phrase@.len() == 0 && r.pinyin@.len() == 0 && r.hint@.len() == 0,
            !r.pinyin_dirty && !r.setting && !r.visible,
    {
        PhraseWindow {
            phrase: String::new(),
            pinyin: String::new(),
            hint: String::new(),
            pinyin_dirty: false,
            setting: false,
            visible: false,
        }
    }

    /// Opened from the menu. Already open: only brought to the front, the half-filled
    /// fields stay; otherwise it opens empty.
    pub fn open(&mut self)
        ensures
            final(self).visible,
            old(self).visible ==> *final(self) == *old(self),
            !old(self).visible ==> final(self).phrase@.len() == 0 && final(self).pinyin@.len() == 0
                && final(self).hint@.len() == 0 && !final(self).pinyin_dirty && final(self).setting
                == old(self).setting,
    {
        if self.visible {
            return;
        }
        self.phrase = String::new();
        self.pinyin = String::new();
        self.hint = String::new();
        self.pinyin_dirty = false;
        self.visible = true;
    }

    /// The close box hides the window.
    pub fn close(&mut self)
        ensures
            *final(self) == (PhraseWindow { visible: false, ..*old(self) }),
    {
        self.visible = false;
    }

    /// The worker's reply. A reading fills the pinyin box unless the user edited it; no
    /// reading says so in the hint; recorded clears the fields and names the phrase; an
    /// error goes to the hint line.
    pub fn apply_reply(&mut self, reply: LearnPhraseReply)
        ensures
            match reply {
                LearnPhraseReply::Pinyin(Some(p)) => if old(self).pinyin_dirty {
                    *final(self) == *old(self)
                } else {
                    *final(self) == (PhraseWindow {
                        pinyin: p,
                        hint: final(self).hint,
                        ..*old(self)
                    }) && final(self).hint@.len() == 0
                },
                LearnPhraseReply::Pinyin(None) => if old(self).pinyin_dirty {
                    *final(self) == *old(self)
                } else {
                    *final(self) == (PhraseWindow { hint: final(self).hint, ..*old(self) })
                        && final(self).hint@ == "词库里查不到这个词, 请自己填拼音"@
                },
                LearnPhraseReply::Learned => final(self).phrase@.len() == 0
                    && final(self).pinyin@.len() == 0 && final(self).hint@ == learned_hint(
                    old(self).phrase@,
                ) && *final(self) == (PhraseWindow {
                    phrase: final(self).phrase,
                    pinyin: final(self).pinyin,
                    hint: final(self).hint,
                    pinyin_dirty: false,
                    ..*old(self)
                }),
                LearnPhraseReply::Error(message) => *final(self) == (PhraseWindow {
                    hint: message,
                    ..*old(self)
                }),
            },
    {
        match reply {
            LearnPhraseReply::Pinyin(Some(p)) => {
                if !self.pinyin_dirty {
                    self.pinyin = p;
                    self.hint = String::new();
                }
            },
            LearnPhraseReply::Pinyin(None) => {
                if !self.pinyin_dirty {
                    self.hint = string_of("词库里查不到这个词, 请自己填拼音");
                }
            },
            LearnPhraseReply::Learned => {
                let mut hint = string_of("已录入「");
                append(&mut hint, self.phrase.as_str());
                append(&mut hint, "」");
                self.phrase = String::new();
                self.pinyin = String::new();
                self.pinyin_dirty = false;
                self.hint = hint;
            },
            LearnPhraseReply::Error(message) => {
                self.hint = message;
            },
        }
    }

    /// The phrase box changed to `text`. Emptied: the pinyin box is released and the
    /// hint cleared. While the pinyin is the user's, nothing more. White space inside is
    /// refused with a hint. Otherwise the reading is asked for.
    pub fn on_phrase_changed(&mut self, text: String) -> (work: Option<LearnPhraseWork>)
        ensures
            final(self).phrase == text,
            trimmed(text@).len() == 0 ==> work is None && final(self).hint@.len() == 0
                && *final(self) == (PhraseWindow {
                phrase: text,
                pinyin_dirty: false,
                hint: final(self).hint,
                ..*old(self)
            }),
            trimmed(text@).len() != 0 && old(self).pinyin_dirty ==> work is None
                && *final(self) == (PhraseWindow { phrase: text, ..*old(self) }),
            trimmed(text@).len() != 0 && !old(self).pinyin_dirty && has_white_space(text@)
                ==> work is None && final(self).hint@ == "词组里不要有空格"@
                && *final(self) == (PhraseWindow { phrase: text, hint: final(self).hint, ..*old(self) }),
            trimmed(text@).len() != 0 && !old(self).pinyin_dirty && !has_white_space(text@)
                ==> work == Some(LearnPhraseWork::Suggest(text)) && *final(self) == (PhraseWindow {
                phrase: text,
                ..*old(self)
            }),
    {
        self.phrase = text.clone();
        let t = trim(text.as_str());
        if t.as_str().is_empty() {
            self.pinyin_dirty = false;
            self.hint = String::new();
            return None;
        }
        if self.pinyin_dirty {
            return None;
        }
        if contains_whitespace(text.as_str()) {
            self.hint = string_of("词组里不要有空格");
            return None;
        }
        Some(LearnPhraseWork::Suggest(text))
    }

    /// The pinyin box changed; a change the program made is no edit.
    pub fn on_pinyin_changed(&mut self)
        ensures
            *final(self) == (PhraseWindow {
                pinyin_dirty: old(self).pinyin_dirty || !old(self).setting,
                ..*old(self)
            }),
    {
        if !self.setting {
            self.pinyin_dirty = true;
        }
    }

    /// "Record": the hint is cleared and the phrase with its pinyin goes to the worker
    /// (which checks that the syllables match the characters).
    pub fn on_confirm(&mut self) -> (work: LearnPhraseWork)
        ensures
            work == (LearnPhraseWork::Confirm { text: old(self).phrase, pinyin: old(self).pinyin }),
            final(self).hint@.len() == 0,
            *final(self) == (PhraseWindow { hint: final(self).hint, ..*old(self) }),
    {
        self.hint = String::new();
        LearnPhraseWork::Confirm { text: self.phrase.clone(), pinyin: self.pinyin.clone() }
    }
}

} // verus!
