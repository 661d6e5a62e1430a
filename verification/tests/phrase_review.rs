//! Reviewing a phrase learned from the selection in the candidate window.

use lib::keys::{KeyCombo, KeyEvent, KeyModifiers, Modifiers, BACK, ESCAPE, RETURN};
use lib::layout::{CandidateKind, ScreenRect};
use lib::router::phrase::{phrase_error_message, PhraseError, Remembered, Review};
use lib::router::{Router, RouterConfig};

fn rect() -> ScreenRect {
    ScreenRect { left: 1, top: 2, right: 3, bottom: 4 }
}

fn key(vk: u32, c: Option<char>) -> KeyEvent {
    KeyEvent::new(vk, c, KeyModifiers::default())
}

fn reviewing(pinyin: &str) -> Router {
    let mut router = Router::new(RouterConfig::default());
    router.begin_phrase_review("青简".to_string(), pinyin.to_string(), rect());
    router
}

#[test]
fn letters_and_backspace_edit_the_pinyin() {
    let mut router = reviewing("qing");
    assert_eq!(router.handle_phrase_review(&key(0xDE, Some('\''))), Review::Consumed);
    assert_eq!(router.handle_phrase_review(&key(0x4A, Some('J'))), Review::Consumed);
    assert_eq!(router.handle_phrase_review(&key(0x31, Some('1'))), Review::Consumed);
    assert_eq!(router.phrase.as_ref().unwrap().pinyin, "qing'j");
    router.handle_phrase_review(&key(BACK, None));
    router.handle_phrase_review(&key(BACK, None));
    assert_eq!(router.phrase.as_ref().unwrap().pinyin, "qing");
    assert_eq!(
        router.handle_phrase_review(&key(RETURN, None)),
        Review::Remember { pinyin: "qing".to_string(), text: "青简".to_string() }
    );
    assert_eq!(router.last_rect, Some(rect()));
}

#[test]
fn escape_and_command_chords_end_the_review() {
    let mut router = reviewing("ni");
    assert_eq!(router.handle_phrase_review(&key(ESCAPE, None)), Review::Consumed);
    assert!(router.phrase.is_none());
    let mut router = reviewing("ni");
    let ctrl_c = KeyEvent::new(0x43, Some('c'), KeyModifiers { ctrl: true, ..KeyModifiers::default() });
    assert_eq!(router.handle_phrase_review(&ctrl_c), Review::Passthrough);
    assert!(router.phrase.is_none());
    assert!(!router.end_phrase());
}

#[test]
fn the_review_frame_shows_the_pinyin_and_a_hint() {
    let router = reviewing("");
    let phrase = router.phrase.clone().unwrap();
    let frame = router.phrase_frame(&phrase);
    assert_eq!(frame.preedit[0].text, " ");
    assert_eq!(frame.cursor, 0);
    assert!(frame.reviewing);
    assert_eq!(frame.notice.as_deref(), Some("回车记词组 · Esc 取消"));
}

#[test]
fn recording_reports_success_or_the_reason() {
    let mut router = reviewing("qing jian");
    router.phrase_remembered(Err(PhraseError::BadPinyin("qxng".to_string())));
    assert!(router.phrase.is_some());
    let refused = router.notice.clone().unwrap();
    assert_eq!(refused, phrase_error_message(&PhraseError::BadPinyin("qxng".to_string())));
    assert_eq!(refused, "拼音认不出来：只收小写字母，音节之间可以用 '");
    router.phrase_remembered(Ok(Remembered { text: "青简".to_string(), replaced: false }));
    assert!(router.phrase.is_none());
    assert_eq!(router.phrase_notice.as_deref(), Some("已记住词组「青简」"));
    let frame = router.phrase_notice_frame(&"已记住词组「青简」".to_string());
    assert_eq!(frame.candidates[0].kind, CandidateKind::Cloud);

    let mut again = reviewing("qing jian");
    again.phrase_remembered(Ok(Remembered { text: "青简".to_string(), replaced: true }));
    assert_eq!(again.phrase_notice.as_deref(), Some("已更新「青简」的拼音"));
}

#[test]
fn every_refusal_has_a_sentence() {
    for error in [
        PhraseError::EmptyPinyin,
        PhraseError::Incomplete,
        PhraseError::BadPinyin("x".to_string()),
        PhraseError::EmptyText,
        PhraseError::Private,
        PhraseError::LearningOff,
    ] {
        assert!(!phrase_error_message(&error).is_empty());
    }
}

#[test]
fn the_learn_combo_matches_by_character_and_chord() {
    let mut router = Router::new(RouterConfig {
        learn_phrase: Some(KeyCombo {
            modifiers: Modifiers { option: false, shift: true, control: true, command: false },
            key: 'l',
        }),
        ..RouterConfig::default()
    });
    let hit = KeyEvent::new(
        0x4C,
        Some('l'),
        KeyModifiers { ctrl: true, shift: true, caps: true, ..KeyModifiers::default() },
    );
    assert!(router.matches_learn_combo(&hit));
    let miss = KeyEvent::new(0x4C, Some('l'), KeyModifiers { ctrl: true, ..KeyModifiers::default() });
    assert!(!router.matches_learn_combo(&miss));
    router.config.learn_phrase = None;
    assert!(!router.matches_learn_combo(&hit));
}
