//! Learning a phrase from the application's selection: the selected text is shown with
//! its reading in the candidate window; letters and `'` edit the pinyin, Backspace
//! removes the last one, Return records "pinyin → text" as a user word, Escape gives up.
//! The selection in the application is never touched.

use vstd::prelude::*;

use super::{Phrase, Router};
use crate::keys::{
    ascii_lower, is_ascii_alpha, is_ascii_alphabetic, to_ascii_lowercase, KeyCombo, KeyEvent,
    KeyModifiers, BACK, ESCAPE, RETURN,
};
use crate::layout::{
    holds_text, Candidate, CandidateKind, Frame, PreeditKind, PreeditSegment, ScreenRect,
};
use crate::text::{backspaced, char_count, pop_char, push_char, string_of};

verus! {

/// Why the engine did not record a phrase.
#[derive(Debug, Clone, PartialEq, Eq)]
pub enum PhraseError {
    EmptyPinyin,
    Incomplete,
    BadPinyin(String),
    EmptyText,
    Private,
    LearningOff,
}

/// The engine recorded a phrase.
#[derive(Debug, Clone, PartialEq, Eq)]
pub struct Remembered {
    pub text: String,
    /// The phrase was known before with another reading.
    pub replaced: bool,
}

/// The outcome of a key during the review.
#[derive(Debug, Clone, PartialEq, Eq)]
pub enum Review {
    /// The key goes back to the application; the review was given up.
    Passthrough,
    /// The key was used (or swallowed).
    Consumed,
    /// Return: record this pinyin and text, then report with
    /// [`Router::phrase_remembered`]; the key is consumed.
    Remember { pinyin: String, text: String },
}

/// The sentence shown when a phrase could not be recorded.
pub open spec fn phrase_error_spec(error: PhraseError) -> Seq<char> {
    match error {
        PhraseError::EmptyPinyin => "拼音还是空的：敲出这段文字的拼音再回车"@,
        PhraseError::Incomplete => "拼音里有没打完的音节：补全再回车，或按 Esc 放弃"@,
        PhraseError::BadPinyin(_) => "拼音认不出来：只收小写字母，音节之间可以用 '"@,
        PhraseError::EmptyText => "没有要记的文字"@,
        PhraseError::Private => "私密输入中，不记词组"@,
        PhraseError::LearningOff => "学习关着（[general] learning），没记词组"@,
    }
}

/// The sentence shown when a phrase could not be recorded.
pub fn phrase_error_message(error: &PhraseError) -> (r: String)
    ensures
        r@ == phrase_error_spec(*error),
{
    match error {
        PhraseError::EmptyPinyin => string_of("拼音还是空的：敲出这段文字的拼音再回车"),
        PhraseError::Incomplete => string_of("拼音里有没打完的音节：补全再回车，或按 Esc 放弃"),
        PhraseError::BadPinyin(_) => string_of("拼音认不出来：只收小写字母，音节之间可以用 '"),
        PhraseError::EmptyText => string_of("没有要记的文字"),
        PhraseError::Private => string_of("私密输入中，不记词组"),
        PhraseError::LearningOff => string_of("学习关着（[general] learning），没记词组"),
    }
}

/// The line shown after a phrase was recorded.
pub open spec fn remembered_spec(remembered: Remembered) -> Seq<char> {
    if remembered.replaced {
        "已更新「"@ + remembered.text@ + "」的拼音"@
    } else {
        "已记住词组「"@ + remembered.text@ + "」"@
    }
}

/// The key's character kept by the review: an ASCII letter (lower-cased) or `'`.
pub open spec fn review_char(event: KeyEvent) -> Option<char> {
    match event.character {
        Some(c) => if is_ascii_alpha(c) || c == '\'' {
            Some(ascii_lower(c))
        } else {
            None
        },
        None => None,
    }
}

impl Router {
    /// The learn-phrase combo was pressed: same character, same physical chord.
    /// A combo turned off (`none`) never matches.
    pub fn matches_learn_combo(&self, event: &KeyEvent) -> (r: bool)
        ensures
            r == match self.config.learn_phrase {
                Some(combo) => event.character == Some(combo.key) && event.modifiers.spec_chord()
                    == KeyModifiers::spec_from_modifiers(combo.modifiers),
                None => false,
            },
    {
        match self.config.learn_phrase {
            Some(combo) => event.character == Some(combo.key) && event.modifiers.chord()
                == KeyModifiers::from_modifiers(combo.modifiers),
            None => false,
        }
    }

    /// The selection arrived (read for learning a phrase): review it with the reading
    /// the dictionary gave (`pinyin`, empty when it has none).
    pub fn begin_phrase_review(&mut self, text: String, pinyin: String, rect: ScreenRect)
        ensures
            *final(self) == (Router {
                last_rect: Some(rect),
                phrase: Some(Phrase { text, pinyin }),
                ..*old(self)
            }),
    {
        self.last_rect = Some(rect);
        self.phrase = Some(Phrase { text, pinyin });
    }

    /// Ends the review; `true` when there was one (the window is to be hidden).
    pub fn end_phrase(&mut self) -> (hide: bool)
        ensures
            hide == old(self).phrase is Some,
            *final(self) == (Router { phrase: None, ..*old(self) }),
    {
        let was = self.phrase.is_some();
        self.phrase = None;
        was
    }

    /// A key during the review. A chord with Ctrl, Alt or Win gives the review up and
    /// passes the key on. Return asks to record the phrase, Escape gives up, Backspace
    /// removes the last pinyin character, a letter or `'` is appended (lower case); any
    /// other key is swallowed.
    pub fn handle_phrase_review(&mut self, event: &KeyEvent) -> (r: Review)
        ensures
            event.modifiers.spec_has_command_key() ==> r == Review::Passthrough && *final(self)
                == (Router { phrase: None, ..*old(self) }),
            !event.modifiers.spec_has_command_key() && event.virtual_key == RETURN ==> *final(self)
                == *old(self) && match old(self).phrase {
                Some(p) => r == Review::Remember { pinyin: p.pinyin, text: p.text },
                None => r == Review::Consumed,
            },
            !event.modifiers.spec_has_command_key() && event.virtual_key == ESCAPE ==> r
                == Review::Consumed && *final(self) == (Router { phrase: None, ..*old(self) }),
            !event.modifiers.spec_has_command_key() && event.virtual_key == BACK ==> r
                == Review::Consumed && match old(self).phrase {
                Some(p) => final(self).phrase matches Some(q) && q.text == p.text && q.pinyin@
                    == backspaced(p.pinyin@) && *final(self) == (Router { phrase: final(self).phrase, ..*old(self) }),
                None => *final(self) == *old(self),
            },
            !event.modifiers.spec_has_command_key() && event.virtual_key != RETURN
                && event.virtual_key != ESCAPE && event.virtual_key != BACK ==> r
                == Review::Consumed && match (old(self).phrase, review_char(*event)) {
                (Some(p), Some(c)) => final(self).phrase matches Some(q) && q.text == p.text
                    && q.pinyin@ == p.pinyin@.push(c) && *final(self) == (Router {
                    phrase: final(self).phrase,
                    ..*old(self)
                }),
                _ => *final(self) == *old(self),
            },
    {
        if event.modifiers.has_command_key() {
            self.end_phrase();
            return Review::Passthrough;
        }
        if event.virtual_key == RETURN {
            return match &self.phrase {
                Some(p) => Review::Remember { pinyin: p.pinyin.clone(), text: p.text.clone() },
                None => Review::Consumed,
            };
        }
        if event.virtual_key == ESCAPE {
            self.end_phrase();
            return Review::Consumed;
        }
        if event.virtual_key == BACK {
            if let Some(p) = &self.phrase {
                let mut pinyin = p.pinyin.clone();
                let _ = pop_char(&mut pinyin);
                self.phrase = Some(Phrase { text: p.text.clone(), pinyin });
            }
            return Review::Consumed;
        }
        let typed = match event.character {
            Some(c) => if is_ascii_alphabetic(c) || c == '\'' {
                Some(to_ascii_lowercase(c))
            } else {
                None
            },
            None => None,
        };
        if let Some(c) = typed {
            if let Some(p) = &self.phrase {
                let mut pinyin = p.pinyin.clone();
                push_char(&mut pinyin, c);
                self.phrase = Some(Phrase { text: p.text.clone(), pinyin });
            }
        }
        Review::Consumed
    }

    /// The engine answered the request to record the phrase. Recorded: the review ends
    /// and a line says so (the window stays open for it). Refused: the review stays and
    /// the reason is shown with the next frame.
    pub fn phrase_remembered(&mut self, result: Result<Remembered, PhraseError>)
        ensures
            match result {
                Ok(remembered) => holds_text(final(self).phrase_notice, remembered_spec(remembered))
                    && *final(self) == (Router {
                    phrase: None,
                    phrase_notice: final(self).phrase_notice,
                    ..*old(self)
                }),
                Err(error) => holds_text(final(self).notice, phrase_error_spec(error))
                    && *final(self) == (Router { notice: final(self).notice, ..*old(self) }),
            },
    {
        match result {
            Ok(remembered) => {
                let mut message = if remembered.replaced {
                    string_of("已更新「")
                } else {
                    string_of("已记住词组「")
                };
                crate::text::append(&mut message, remembered.text.as_str());
                if remembered.replaced {
                    crate::text::append(&mut message, "」的拼音");
                } else {
                    crate::text::append(&mut message, "」");
                }
                self.phrase = None;
                self.phrase_notice = Some(message);
            },
            Err(error) => {
                self.notice = Some(phrase_error_message(&error));
            },
        }
    }

    /// The review frame: the pinyin line (a space while it is empty, so the window does
    /// not close) and a hint, no candidates. A failure notice takes the hint's place.
    pub fn phrase_frame(&self, phrase: &Phrase) -> (f: Frame)
        ensures
            f.preedit@.len() == 1,
            f.preedit@[0].kind == PreeditKind::Typed,
            f.preedit@[0].text@ == (if phrase.pinyin@.len() == 0 {
                " "@
            } else {
                phrase.pinyin@
            }),
            f.cursor == phrase.pinyin@.len(),
            f.candidates@.len() == 0,
            f.highlight == usize::MAX,
            f.page == 0,
            f.page_count == 1,
            f.sentence is None,
            f.notice matches Some(n) && n@ == match self.notice {
                Some(m) => m@,
                None => "回车记词组 · Esc 取消"@,
            },
            f.reviewing,
            f.frequencies@.len() == 0,
    {
        let display = if phrase.pinyin.as_str().is_empty() {
            string_of(" ")
        } else {
            phrase.pinyin.clone()
        };
        let mut preedit = Vec::new();
        preedit.push(PreeditSegment { text: display, kind: PreeditKind::Typed });
        let notice = match &self.notice {
            Some(n) => n.clone(),
            None => string_of("回车记词组 · Esc 取消"),
        };
        Frame {
            preedit,
            cursor: char_count(phrase.pinyin.as_str()),
            candidates: Vec::new(),
            highlight: usize::MAX,
            page: 0,
            page_count: 1,
            sentence: None,
            notice: Some(notice),
            reviewing: true,
            frequencies: Vec::new(),
        }
    }

    /// The frame after a phrase was recorded: the line as the only candidate.
    pub fn phrase_notice_frame(&self, message: &String) -> (f: Frame)
        ensures
            f.preedit@.len() == 0,
            f.cursor == 0,
            f.candidates@.len() == 1,
            f.candidates@[0].text@ == message@,
            f.candidates@[0].kind == CandidateKind::Cloud,
            f.highlight == 0,
            f.page == 0,
            f.page_count == 1,
            f.sentence is None,
            f.notice is None,
            !f.reviewing,
            f.frequencies@.len() == 0,
    {
        let mut candidates = Vec::new();
        candidates.push(Candidate { text: message.clone(), kind: CandidateKind::Cloud });
        Frame {
            preedit: Vec::new(),
            cursor: 0,
            candidates,
            highlight: 0,
            page: 0,
            page_count: 1,
            sentence: None,
            notice: None,
            reviewing: false,
            frequencies: Vec::new(),
        }
    }
}

} // verus!
