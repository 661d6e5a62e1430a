//! The input controller's decisions between its calls into the engine and the
//! application: which commit a key asks for, how learning a phrase starts and ends,
//! and what follows a mode switch.

use vstd::prelude::*;

use super::presenting::PhraseJob;
use crate::layout::{holds_text, Candidate};
use crate::router::phrase::{
    phrase_error_message, phrase_error_spec, remembered_spec, PhraseError, Remembered,
};
use crate::text::{append, string_of};

verus! {

/// What committing cell `index` of the candidate list does.
#[derive(Debug, Clone, PartialEq, Eq)]
pub enum CommitChoice {
    /// Commit this candidate.
    Candidate(Candidate),
    /// The cell is empty (a slot kept for cloud words): the key is used, nothing happens.
    Swallow,
    /// No such cell: the letters are committed as they are.
    Raw,
}

/// The candidate in cell `index` (`cell`, from a list of `layout_len` cells) is
/// committed; an empty cell swallows the key; beyond the list the letters go as typed.
pub fn commit_choice(cell: Option<Candidate>, index: usize, layout_len: usize) -> (r: CommitChoice)
    ensures
        r == match cell {
            Some(c) => CommitChoice::Candidate(c),
            None => if index < layout_len {
                CommitChoice::Swallow
            } else {
                CommitChoice::Raw
            },
        },
{
    match cell {
        Some(c) => CommitChoice::Candidate(c),
        None => if index < layout_len {
            CommitChoice::Swallow
        } else {
            CommitChoice::Raw
        },
    }
}

/// What taking the raw input commits: nothing when the buffer was empty or gave an
/// empty text.
pub fn raw_commit(raw: Option<String>) -> (r: Option<String>)
    ensures
        r == match raw {
            Some(t) => if t@.len() > 0 {
                Some(t)
            } else {
                None
            },
            None => None,
        },
{
    match raw {
        Some(t) => if t.as_str().is_empty() {
            None
        } else {
            Some(t)
        },
        None => None,
    }
}

/// How the learn-phrase shortcut starts.
#[derive(Debug, Clone, PartialEq, Eq)]
pub enum LearnPhraseStart {
    /// Secure input is on: the key goes to the application.
    Refused,
    /// Nothing selected, or the application does not let the selection be read: this
    /// notice is shown and the key is used.
    Notice(String),
    /// The selected text is reviewed; its reading is looked up next.
    Review(String),
}

pub open spec fn no_selection_notice() -> Seq<char> {
    "先选中一段文字再按这个键；这个应用也可能不支持读取选区（最多 500 字）"@
}

pub open spec fn no_reading_status() -> Seq<char> {
    "词库读不出这段文字的读音，请自己敲拼音 · 回车记词组"@
}

/// The learn-phrase shortcut, with the secure-input state and the selection read from
/// the application.
pub fn learn_phrase_start(secure_input: bool, selection: Option<String>) -> (r: LearnPhraseStart)
    ensures
        secure_input ==> r == LearnPhraseStart::Refused,
        !secure_input ==> match selection {
            Some(text) => r == LearnPhraseStart::Review(text),
            None => r matches LearnPhraseStart::Notice(n) && n@ == no_selection_notice(),
        },
{
    if secure_input {
        return LearnPhraseStart::Refused;
    }
    match selection {
        Some(text) => LearnPhraseStart::Review(text),
        None => LearnPhraseStart::Notice(
            string_of("先选中一段文字再按这个键；这个应用也可能不支持读取选区（最多 500 字）"),
        ),
    }
}

/// The review of `text` with the reading the dictionary gave (`None`, or empty, when
/// it has none: then the status line asks for the pinyin).
pub fn begin_review(text: String, pinyin: Option<String>) -> (r: (PhraseJob, Option<String>))
    ensures
        r.0.text == text,
        r.0.pinyin@ == match pinyin {
            Some(p) => p@,
            None => seq![],
        },
        r.0.pinyin@.len() == 0 ==> holds_text(r.1, no_reading_status()),
        r.0.pinyin@.len() > 0 ==> r.1 is None,
{
    let pinyin = match pinyin {
        Some(p) => p,
        None => String::new(),
    };
    let status = if pinyin.as_str().is_empty() {
        Some(string_of("词库读不出这段文字的读音，请自己敲拼音 · 回车记词组"))
    } else {
        None
    };
    (PhraseJob { text, pinyin }, status)
}

/// What recording the reviewed phrase led to.
#[derive(Debug, Clone, PartialEq, Eq)]
pub enum PhraseOutcome {
    /// Recorded: the review ends and this notice is shown beside the caret.
    Remembered(String),
    /// Not recorded: the review stays and this line says why.
    Refused(String),
}

/// The engine's answer to recording the phrase, as the user sees it.
pub fn phrase_outcome(result: Result<Remembered, PhraseError>) -> (r: PhraseOutcome)
    ensures
        match result {
            Ok(remembered) => r matches PhraseOutcome::Remembered(m) && m@ == remembered_spec(
                remembered,
            ),
            Err(error) => r matches PhraseOutcome::Refused(m) && m@ == phrase_error_spec(error),
        },
{
    match result {
        Ok(remembered) => {
            let mut message = if remembered.replaced {
                string_of("已更新「")
            } else {
                string_of("已记住词组「")
            };
            append(&mut message, remembered.text.as_str());
            if remembered.replaced {
                append(&mut message, "」的拼音");
            } else {
                append(&mut message, "」");
            }
            PhraseOutcome::Remembered(message)
        },
        Err(error) => PhraseOutcome::Refused(phrase_error_message(&error)),
    }
}

/// After the mode switched to `english`: the letters being composed are committed as
/// typed first (else pinyin would be completed as English and the other way round),
/// and the engine offers English candidates only in English mode and only in
/// applications that want them.
pub fn switch_follow_up(english: bool, composing: bool, english_candidates_in_app: bool) -> (r: (
    bool,
    bool,
))
    ensures
        r == (composing, english && english_candidates_in_app),
{
    (composing, english && english_candidates_in_app)
}

/// What the frequency key + K / J does in the controller.
#[derive(Debug, Clone, PartialEq, Eq)]
pub enum AdjustStep {
    /// Nothing is composed: the key goes on.
    NotHandled,
    /// The highlighted cell is empty: the key is used, nothing to adjust.
    Swallow,
    /// Adjust the candidate reading this text, then put the highlight back on it.
    Adjust(String),
}

/// The frequency shortcut with the composition state and the highlighted candidate.
pub fn adjust_step(composing: bool, highlighted: Option<String>) -> (r: AdjustStep)
    ensures
        !composing ==> r == AdjustStep::NotHandled,
        composing ==> r == match highlighted {
            Some(t) => AdjustStep::Adjust(t),
            None => AdjustStep::Swallow,
        },
{
    if !composing {
        return AdjustStep::NotHandled;
    }
    match highlighted {
        Some(t) => AdjustStep::Adjust(t),
        None => AdjustStep::Swallow,
    }
}

} // verus!
