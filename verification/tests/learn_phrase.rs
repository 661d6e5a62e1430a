//! Learning a phrase: the worker's calls and replies, and the window's form.

use lib::router::learn_phrase::{
    phrase_error_text, LearnPhraseCall, LearnPhraseError, LearnPhraseReply, LearnPhraseWork,
};
use lib::router::phrase_window::PhraseWindow;
use lib::router::{Router, RouterConfig};

/// The engine's check of a confirmation: the phrase, then the pinyin, then the count.
fn parse(text: &str, pinyin: &str) -> Result<(), LearnPhraseError> {
    if text.is_empty() {
        return Err(LearnPhraseError::EmptyText);
    }
    let syllables = pinyin.split_whitespace().count();
    let chars = text.chars().count();
    if syllables != chars {
        return Err(LearnPhraseError::SyllableCount { chars, syllables });
    }
    Ok(())
}

fn confirm(router: &Router, text: &str, pinyin: &str) -> LearnPhraseReply {
    let call = router.learn_phrase(LearnPhraseWork::Confirm {
        text: text.to_owned(),
        pinyin: pinyin.to_owned(),
    });
    match call {
        LearnPhraseCall::Confirm { text, pinyin } => router.confirm_reply(parse(&text, &pinyin)),
        other => panic!("{other:?}"),
    }
}

#[test]
fn confirm_reports_bad_input() {
    let router = Router::new(RouterConfig::default());
    assert_eq!(
        confirm(&router, "你好", "ni"),
        LearnPhraseReply::Error("拼音是 1 个音节, 词组是 2 个字".to_owned())
    );
    assert_eq!(confirm(&router, "  ", "ni"), LearnPhraseReply::Error("请输入词组".to_owned()));
}

#[test]
fn confirmation_trims_the_phrase() {
    let router = Router::new(RouterConfig::default());
    assert_eq!(
        router.learn_phrase(LearnPhraseWork::Confirm {
            text: " 青简\t".to_owned(),
            pinyin: "qing jian".to_owned(),
        }),
        LearnPhraseCall::Confirm { text: "青简".to_owned(), pinyin: "qing jian".to_owned() }
    );
    assert_eq!(confirm(&router, "青简", "qing jian"), LearnPhraseReply::Learned);
    assert_eq!(
        router.learn_phrase(LearnPhraseWork::Suggest("你好".to_owned())),
        LearnPhraseCall::Suggest("你好".to_owned())
    );
}

#[test]
fn suggestions_are_joined_by_spaces() {
    let router = Router::new(RouterConfig::default());
    assert_eq!(
        router.suggestion_reply(Some(vec!["ni".to_owned(), "hao".to_owned()])),
        LearnPhraseReply::Pinyin(Some("ni hao".to_owned()))
    );
    assert_eq!(router.suggestion_reply(None), LearnPhraseReply::Pinyin(None));
}

#[test]
fn every_error_has_its_text() {
    assert_eq!(phrase_error_text(LearnPhraseError::EmptyText), "请输入词组");
    assert_eq!(phrase_error_text(LearnPhraseError::HasWhitespace), "词组里不要有空格");
    assert_eq!(phrase_error_text(LearnPhraseError::TooLong(16)), "词组最多 16 个字");
    assert_eq!(phrase_error_text(LearnPhraseError::EmptyPinyin), "请填写拼音");
    assert_eq!(phrase_error_text(LearnPhraseError::InvalidPinyin), "拼音无法切成完整音节");
    assert_eq!(
        phrase_error_text(LearnPhraseError::SyllableCount { chars: 12, syllables: 0 }),
        "拼音是 0 个音节, 词组是 12 个字"
    );
}

#[test]
fn phrase_window_looks_up_until_the_pinyin_is_edited() {
    let mut window = PhraseWindow::new();
    window.open();
    assert_eq!(
        window.on_phrase_changed("你好".to_owned()),
        Some(LearnPhraseWork::Suggest("你好".to_owned()))
    );
    window.apply_reply(LearnPhraseReply::Pinyin(Some("ni hao".to_owned())));
    assert_eq!(window.pinyin, "ni hao");
    window.on_pinyin_changed();
    assert_eq!(window.on_phrase_changed("你好呀".to_owned()), None);
    assert_eq!(
        window.on_confirm(),
        LearnPhraseWork::Confirm { text: "你好呀".to_owned(), pinyin: "ni hao".to_owned() }
    );
    window.apply_reply(LearnPhraseReply::Error("拼音是 2 个音节, 词组是 3 个字".to_owned()));
    assert_eq!(window.hint, "拼音是 2 个音节, 词组是 3 个字");
    window.apply_reply(LearnPhraseReply::Learned);
    assert_eq!(window.hint, "已录入「你好呀」");
    assert_eq!(window.phrase, "");
    assert!(!window.pinyin_dirty);
}

#[test]
fn phrase_window_refuses_white_space_and_says_when_nothing_is_found() {
    let mut window = PhraseWindow::new();
    window.open();
    assert_eq!(window.on_phrase_changed("你 好".to_owned()), None);
    assert_eq!(window.hint, "词组里不要有空格");
    assert_eq!(
        window.on_phrase_changed("青简".to_owned()),
        Some(LearnPhraseWork::Suggest("青简".to_owned()))
    );
    window.apply_reply(LearnPhraseReply::Pinyin(None));
    assert_eq!(window.hint, "词库里查不到这个词, 请自己填拼音");
    window.close();
    assert!(!window.visible);
}
