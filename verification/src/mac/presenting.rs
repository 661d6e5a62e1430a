//! What the macOS windows show: the preedit styles, the phrase being learned and the
//! keys that edit it, and the update line of the About page.

use vstd::prelude::*;

use super::modifiers::{FLAG_COMMAND, FLAG_CONTROL};
use crate::keys::{ascii_lower, is_ascii_alpha, is_ascii_alphabetic, to_ascii_lowercase};
use crate::layout::PreeditKind;
use crate::text::{append, backspaced, pop_char, push_char, string_of};

verus! {

/// How a piece of the preedit is drawn.
#[derive(Debug, Clone, Copy, PartialEq, Eq, Structural)]
pub enum PreeditStyle {
    /// Typed pinyin: normal strength.
    Typed,
    /// Pinyin after the cursor: lighter.
    Rest,
    /// Letters replaced by a correction: lighter and struck through.
    Struck,
    /// Words chosen but not yet handed to the application: plain text.
    Committed,
}

pub open spec fn style_of(kind: PreeditKind) -> PreeditStyle {
    match kind {
        PreeditKind::Typed => PreeditStyle::Typed,
        PreeditKind::Rest => PreeditStyle::Rest,
        PreeditKind::Corrected => PreeditStyle::Struck,
        PreeditKind::AuxCode => PreeditStyle::Rest,
        PreeditKind::Pending => PreeditStyle::Committed,
    }
}

impl From<PreeditKind> for PreeditStyle {
    /// The style of a marked piece of the preedit; auxiliary codes borrow the light
    /// colour of the remaining pinyin.
    fn from(kind: PreeditKind) -> (r: PreeditStyle) {
        match kind {
            PreeditKind::Typed => PreeditStyle::Typed,
            PreeditKind::Rest => PreeditStyle::Rest,
            PreeditKind::Corrected => PreeditStyle::Struck,
            PreeditKind::AuxCode => PreeditStyle::Rest,
            PreeditKind::Pending => PreeditStyle::Committed,
        }
    }
}

impl vstd::std_specs::convert::FromSpecImpl<PreeditKind> for PreeditStyle {
    open spec fn obeys_from_spec() -> bool {
        true
    }

    open spec fn from_spec(kind: PreeditKind) -> PreeditStyle {
        style_of(kind)
    }
}

/// Learning a phrase: from the shortcut to Return or Escape.
#[derive(Debug, Clone)]
pub struct PhraseJob {
    /// The selected text.
    pub text: String,
    /// The pinyin being edited, syllables separated by `'`.
    pub pinyin: String,
}

impl PhraseJob {
    /// The pinyin line: a space while the pinyin is empty, so the window does not close.
    pub fn display_pinyin(&self) -> (r: &str)
        ensures
            r@ == (if self.pinyin@.len() == 0 {
                " "@
            } else {
                self.pinyin@
            }),
    {
        if self.pinyin.as_str().is_empty() {
            " "
        } else {
            self.pinyin.as_str()
        }
    }
}

/// What a key does during the review of a phrase.
#[derive(Debug, Clone, PartialEq, Eq)]
pub enum PhraseKey {
    /// ⌘ or ⌃ is held: give the review up and pass the key on.
    GiveUpAndPass,
    /// Return (main or keypad): record the phrase.
    Commit,
    /// Escape: give up.
    GiveUp,
    /// Backspace: remove the last pinyin character.
    Backspace,
    /// Letters and `'` typed, lower-cased, to append.
    Append(String),
    /// Any other key: swallowed.
    Swallow,
}

/// The letters and `'` of `chars`, lower-cased.
pub open spec fn review_letters(chars: Seq<char>) -> Seq<char>
    decreases chars.len(),
{
    if chars.len() == 0 {
        seq![]
    } else {
        let rest = review_letters(chars.drop_last());
        let c = chars.last();
        if is_ascii_alpha(c) || c == '\'' {
            rest.push(ascii_lower(c))
        } else {
            rest
        }
    }
}

fn keep_review_letters(chars: &str) -> (r: String)
    ensures
        r@ == review_letters(chars@),
{
    let n = chars.unicode_len();
    let mut out = String::new();
    let mut i: usize = 0;
    while i < n
        invariant
            n == chars@.len(),
            i <= n,
            out@ == review_letters(chars@.subrange(0, i as int)),
        decreases n - i,
    {
        let c = chars.get_char(i);
        assert(chars@.subrange(0, i + 1).drop_last() == chars@.subrange(0, i as int));
        assert(chars@.subrange(0, i + 1).last() == c);
        if is_ascii_alphabetic(c) || c == '\'' {
            push_char(&mut out, to_ascii_lowercase(c));
        }
        i = i + 1;
    }
    assert(chars@.subrange(0, n as int) == chars@);
    out
}

/// What a key means while a phrase is reviewed: by the event's flags and key code,
/// else by its characters.
pub fn phrase_key(key_code: u16, flags: u64, characters: &Option<String>) -> (r: PhraseKey)
    ensures
        (flags & (FLAG_COMMAND | FLAG_CONTROL)) != 0 ==> r == PhraseKey::GiveUpAndPass,
        (flags & (FLAG_COMMAND | FLAG_CONTROL)) == 0 ==> {
            if key_code == 36 || key_code == 76 {
                r == PhraseKey::Commit
            } else if key_code == 53 {
                r == PhraseKey::GiveUp
            } else if key_code == 51 {
                r == PhraseKey::Backspace
            } else {
                let typed = match characters {
                    Some(c) => review_letters(c@),
                    None => seq![],
                };
                if typed.len() == 0 {
                    r == PhraseKey::Swallow
                } else {
                    r matches PhraseKey::Append(t) && t@ == typed
                }
            }
        },
{
    if (flags & (FLAG_COMMAND | FLAG_CONTROL)) != 0 {
        return PhraseKey::GiveUpAndPass;
    }
    if key_code == 36 || key_code == 76 {
        return PhraseKey::Commit;
    }
    if key_code == 53 {
        return PhraseKey::GiveUp;
    }
    if key_code == 51 {
        return PhraseKey::Backspace;
    }
    let typed = match characters {
        Some(c) => keep_review_letters(c.as_str()),
        None => String::new(),
    };
    if typed.as_str().is_empty() {
        PhraseKey::Swallow
    } else {
        PhraseKey::Append(typed)
    }
}

impl PhraseJob {
    /// Backspace: the last pinyin character goes.
    pub fn backspace(&mut self)
        ensures
            final(self).text == old(self).text,
            final(self).pinyin@ == backspaced(old(self).pinyin@),
    {
        let _ = pop_char(&mut self.pinyin);
    }

    /// Typed letters are appended.
    pub fn type_letters(&mut self, typed: &String)
        ensures
            final(self).text == old(self).text,
            final(self).pinyin@ == old(self).pinyin@ + typed@,
    {
        append(&mut self.pinyin, typed.as_str());
    }
}

/// The state of the update check shown on the About page.
#[derive(Debug, Clone, Default, PartialEq, Eq)]
pub struct UpdateStatus {
    /// The newer version found.
    pub available: Option<String>,
    /// A check is running.
    pub checking: bool,
    /// At least one check finished.
    pub checked: bool,
    /// A local development build: no checks.
    pub dev_build: bool,
}

pub open spec fn update_text(status: UpdateStatus) -> Seq<char> {
    match status.available {
        Some(version) => "有新版本 "@ + version@,
        None => if status.checking {
            "正在检查…"@
        } else if status.dev_build {
            "本地开发版，不检查更新"@
        } else if status.checked {
            "已是最新版本"@
        } else {
            seq![]
        },
    }
}

impl UpdateStatus {
    /// The line beside "check now".
    pub fn text(&self) -> (r: String)
        ensures
            r@ == update_text(*self),
    {
        match &self.available {
            Some(version) => {
                let mut s = string_of("有新版本 ");
                append(&mut s, version.as_str());
                s
            },
            None => if self.checking {
                string_of("正在检查…")
            } else if self.dev_build {
                string_of("本地开发版，不检查更新")
            } else if self.checked {
                string_of("已是最新版本")
            } else {
                String::new()
            },
        }
    }
}

} // verus!
