//! The "learn a phrase" window: it asks the worker that owns the engine for a reading
//! of the phrase, and to record phrase and pinyin. The worker's part here decides what
//! to ask the engine and turns the engine's answers into the window's replies.

use vstd::prelude::*;

use super::Router;
use crate::text::{append, decimal, join, joined, push_decimal, string_of, trim, trimmed, views};

verus! {

/// What the window asks the worker to do.
#[derive(Debug, Clone, PartialEq, Eq)]
pub enum LearnPhraseWork {
    /// The phrase box changed: look up its reading (not sent once the user edited the
    /// pinyin box).
    Suggest(String),
    /// "Record": check the pinyin and record the phrase.
    Confirm { text: String, pinyin: String },
}

/// What the worker answers.
#[derive(Debug, Clone, PartialEq, Eq)]
pub enum LearnPhraseReply {
    /// The suggested pinyin, syllables separated by spaces; `None` when the dictionary
    /// does not know the phrase and the user is to type it.
    Pinyin(Option<String>),
    /// Recorded.
    Learned,
    /// The error text, shown in the window.
    Error(String),
}

/// Why a phrase cannot be recorded.
#[derive(Debug, Clone, Copy, PartialEq, Eq, Structural)]
pub enum LearnPhraseError {
    EmptyText,
    HasWhitespace,
    /// More characters than the given limit.
    TooLong(usize),
    EmptyPinyin,
    InvalidPinyin,
    SyllableCount { chars: usize, syllables: usize },
}

/// The engine call a piece of work needs.
#[derive(Debug, Clone, PartialEq, Eq)]
pub enum LearnPhraseCall {
    /// Look up the reading of the text.
    Suggest(String),
    /// Parse the pinyin against the trimmed text, then record the phrase and flush.
    Confirm { text: String, pinyin: String },
}

/// The error text, the same on every platform.
pub open spec fn phrase_error_text_spec(error: LearnPhraseError) -> Seq<char> {
    match error {
        LearnPhraseError::EmptyText => "请输入词组"@,
        LearnPhraseError::HasWhitespace => "词组里不要有空格"@,
        LearnPhraseError::TooLong(max) => "词组最多 "@ + decimal(max as nat) + " 个字"@,
        LearnPhraseError::EmptyPinyin => "请填写拼音"@,
        LearnPhraseError::InvalidPinyin => "拼音无法切成完整音节"@,
        LearnPhraseError::SyllableCount { chars, syllables } => "拼音是 "@ + decimal(
            syllables as nat,
        ) + " 个音节, 词组是 "@ + decimal(chars as nat) + " 个字"@,
    }
}

/// The error text, the same on every platform.
pub fn phrase_error_text(error: LearnPhraseError) -> (r: String)
    ensures
        r@ == phrase_error_text_spec(error),
{
    match error {
        LearnPhraseError::EmptyText => string_of("请输入词组"),
        LearnPhraseError::HasWhitespace => string_of("词组里不要有空格"),
        LearnPhraseError::TooLong(max) => {
            let mut s = string_of("词组最多 ");
            push_decimal(&mut s, max);
            append(&mut s, " 个字");
            s
        },
        LearnPhraseError::EmptyPinyin => string_of("请填写拼音"),
        LearnPhraseError::InvalidPinyin => string_of("拼音无法切成完整音节"),
        LearnPhraseError::SyllableCount { chars, syllables } => {
            let mut s = string_of("拼音是 ");
            push_decimal(&mut s, syllables);
            append(&mut s, " 个音节, 词组是 ");
            push_decimal(&mut s, chars);
            append(&mut s, " 个字");
            s
        },
    }
}

impl Router {
    /// The engine call for a piece of work: a lookup as it is; a confirmation with the
    /// phrase trimmed of surrounding white space.
    pub fn learn_phrase(&self, work: LearnPhraseWork) -> (r: LearnPhraseCall)
        ensures
            match work {
                LearnPhraseWork::Suggest(text) => r == LearnPhraseCall::Suggest(text),
                LearnPhraseWork::Confirm { text, pinyin } => r matches LearnPhraseCall::Confirm {
                    text: t,
                    pinyin: p,
                } && t@ == trimmed(text@) && p == pinyin,
            },
    {
        match work {
            LearnPhraseWork::Suggest(text) => LearnPhraseCall::Suggest(text),
            LearnPhraseWork::Confirm { text, pinyin } => LearnPhraseCall::Confirm {
                text: trim(text.as_str()),
                pinyin,
            },
        }
    }

    /// The reply to a lookup: the syllables joined by spaces, or `None`.
    pub fn suggestion_reply(&self, syllables: Option<Vec<String>>) -> (r: LearnPhraseReply)
        ensures
            match syllables {
                Some(parts) => r matches LearnPhraseReply::Pinyin(Some(p)) && p@ == joined(
                    views(parts@),
                    " "@,
                ),
                None => r == LearnPhraseReply::Pinyin(None),
            },
    {
        match syllables {
            Some(parts) => LearnPhraseReply::Pinyin(Some(join(&parts, " "))),
            None => LearnPhraseReply::Pinyin(None),
        }
    }

    /// The reply to a confirmation: recorded, or the error text of the first step that
    /// failed (parsing the pinyin or recording).
    pub fn confirm_reply(&self, outcome: Result<(), LearnPhraseError>) -> (r: LearnPhraseReply)
        ensures
            match outcome {
                Ok(()) => r == LearnPhraseReply::Learned,
                Err(error) => r matches LearnPhraseReply::Error(text) && text@
                    == phrase_error_text_spec(error),
            },
    {
        match outcome {
            Ok(()) => LearnPhraseReply::Learned,
            Err(error) => LearnPhraseReply::Error(phrase_error_text(error)),
        }
    }
}

} // verus!
