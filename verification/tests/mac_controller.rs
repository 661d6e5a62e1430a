//! The macOS input controller's decisions.

use lib::layout::{Candidate, CandidateKind};
use lib::mac::controller::{
    adjust_step, begin_review, commit_choice, learn_phrase_start, phrase_outcome, raw_commit,
    switch_follow_up, AdjustStep, CommitChoice, LearnPhraseStart, PhraseOutcome,
};
use lib::router::phrase::{PhraseError, Remembered};

#[test]
fn commit_goes_to_the_candidate_an_empty_slot_or_the_letters() {
    let word = Candidate::new("你好".to_string(), CandidateKind::Chinese);
    assert_eq!(commit_choice(Some(word.clone()), 0, 3), CommitChoice::Candidate(word));
    assert_eq!(commit_choice(None, 2, 3), CommitChoice::Swallow);
    assert_eq!(commit_choice(None, 3, 3), CommitChoice::Raw);
    assert_eq!(raw_commit(Some("nihao".to_string())), Some("nihao".to_string()));
    assert_eq!(raw_commit(Some(String::new())), None);
    assert_eq!(raw_commit(None), None);
}

#[test]
fn learning_a_phrase_needs_a_selection_and_no_secure_input() {
    assert_eq!(learn_phrase_start(true, Some("青简".to_string())), LearnPhraseStart::Refused);
    assert_eq!(
        learn_phrase_start(false, None),
        LearnPhraseStart::Notice(
            "先选中一段文字再按这个键；这个应用也可能不支持读取选区（最多 500 字）".to_string()
        )
    );
    assert_eq!(
        learn_phrase_start(false, Some("青简".to_string())),
        LearnPhraseStart::Review("青简".to_string())
    );
}

#[test]
fn the_review_starts_with_the_dictionary_reading() {
    let (job, status) = begin_review("你好".to_string(), Some("ni'hao".to_string()));
    assert_eq!((job.text.as_str(), job.pinyin.as_str()), ("你好", "ni'hao"));
    assert_eq!(status, None);
    let (job, status) = begin_review("青简".to_string(), None);
    assert_eq!(job.pinyin, "");
    assert_eq!(status.as_deref(), Some("词库读不出这段文字的读音，请自己敲拼音 · 回车记词组"));
    let (_, status) = begin_review("青简".to_string(), Some(String::new()));
    assert!(status.is_some());
}

#[test]
fn recording_the_phrase_is_reported() {
    assert_eq!(
        phrase_outcome(Ok(Remembered { text: "青简".to_string(), replaced: false })),
        PhraseOutcome::Remembered("已记住词组「青简」".to_string())
    );
    assert_eq!(
        phrase_outcome(Ok(Remembered { text: "青简".to_string(), replaced: true })),
        PhraseOutcome::Remembered("已更新「青简」的拼音".to_string())
    );
    assert_eq!(
        phrase_outcome(Err(PhraseError::Private)),
        PhraseOutcome::Refused("私密输入中，不记词组".to_string())
    );
}

#[test]
fn a_switch_commits_the_letters_and_sets_english_candidates() {
    assert_eq!(switch_follow_up(true, true, true), (true, true));
    assert_eq!(switch_follow_up(true, false, false), (false, false));
    assert_eq!(switch_follow_up(false, true, true), (true, false));
}

#[test]
fn the_frequency_key_needs_a_composition_and_a_candidate() {
    assert_eq!(adjust_step(false, Some("你好".to_string())), AdjustStep::NotHandled);
    assert_eq!(adjust_step(true, None), AdjustStep::Swallow);
    assert_eq!(adjust_step(true, Some("你好".to_string())), AdjustStep::Adjust("你好".to_string()));
}
