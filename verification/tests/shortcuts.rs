//! Shortcuts during composition: modifier + digit (commit a translation, forget a
//! candidate) and the frequency key, driven the way the input server drives the router,
//! with a small stand-in engine that knows one word.

use lib::keys::{KeyEvent, KeyModifiers};
use lib::layout::{Candidate, CandidateKind, Frame, PreeditKind, PreeditSegment, WordFrequency};
use lib::router::linux::KeyOutcome;
use lib::router::shortcuts::{DigitAction, FrequencyAction, Forgotten, KeyRoute};
use lib::router::{Composition, Effect, Router, RouterConfig};

const CTRL: KeyModifiers = KeyModifiers {
    ctrl: true,
    shift: false,
    alt: false,
    win: false,
    caps: false,
    english_mode: false,
};
const SHIFT: KeyModifiers = KeyModifiers {
    ctrl: false,
    shift: true,
    alt: false,
    win: false,
    caps: false,
    english_mode: false,
};
const WIN: KeyModifiers = KeyModifiers {
    ctrl: false,
    shift: false,
    alt: false,
    win: true,
    caps: false,
    english_mode: false,
};
const TRANSLATE: KeyModifiers = CTRL;
const TRANSLATE_SECOND: KeyModifiers = KeyModifiers {
    ctrl: true,
    shift: true,
    alt: false,
    win: false,
    caps: false,
    english_mode: false,
};

/// A stand-in for the conversion engine: the letters typed, one dictionary word
/// (你好 for `nihao`, with the single translation "hello") and its learning counts.
struct Engine {
    buffer: String,
    count: u32,
}

impl Engine {
    fn new() -> Engine {
        Engine { buffer: String::new(), count: 0 }
    }

    fn composing(&self) -> bool {
        !self.buffer.is_empty()
    }

    fn composition(&self) -> Composition {
        if self.buffer.is_empty() {
            return Composition::Idle;
        }
        match self.buffer.strip_prefix("nihao") {
            Some(rest) => {
                let preedit = format!("ni'hao{rest}");
                let cursor = preedit.chars().count();
                Composition::Query {
                    preedit: vec![PreeditSegment { text: preedit, kind: PreeditKind::Typed }],
                    cursor,
                    cells: vec![
                        Some(Candidate::new("你好".to_string(), CandidateKind::Chinese)),
                        Some(Candidate::new("拟好".to_string(), CandidateKind::Chinese)),
                    ],
                }
            }
            None => Composition::Plain {
                text: self.buffer.clone(),
                cursor: self.buffer.chars().count(),
            },
        }
    }

    fn translation(&self, candidate: &Candidate, sense: usize) -> Option<String> {
        match (candidate.text.as_str(), sense) {
            ("你好", 0) => Some("hello".to_string()),
            _ => None,
        }
    }

    fn forget(&mut self, _candidate: &Candidate) -> Forgotten {
        let learning = self.count > 0;
        self.count = 0;
        Forgotten { user_word: false, learning }
    }

    /// The selection counts of a shown candidate.
    fn frequency_of(&self, candidate: &Candidate) -> Option<WordFrequency> {
        match candidate.text.as_str() {
            "你好" => Some(WordFrequency { total: self.count, selected: self.count }),
            "拟好" => Some(WordFrequency { total: 0, selected: 0 }),
            _ => None,
        }
    }

    /// Returns (changed, has a frequency).
    fn adjust(&mut self, up: bool) -> (bool, bool) {
        if up {
            self.count += 1;
            (true, true)
        } else if self.count > 0 {
            self.count -= 1;
            (true, true)
        } else {
            (false, true)
        }
    }
}

struct Server {
    router: Router,
    engine: Engine,
}

fn server_with(config: RouterConfig) -> Server {
    Server { router: Router::new(config), engine: Engine::new() }
}

fn server() -> Server {
    server_with(RouterConfig::default())
}

/// One key through the router: the frequency key, the shortcuts during composition,
/// chords for the application, then the engine.
fn press(server: &mut Server, event: KeyEvent) -> (KeyOutcome, Option<String>, Frame) {
    let composing = server.engine.composing();
    let effect = match server.router.begin_key(&event, composing) {
        Some(effect) => effect,
        None => shortcut_or_key(server, &event, composing),
    };
    let (outcome, commit) = match effect {
        Effect::Changed(commit) => {
            if commit.is_some() {
                server.engine.buffer.clear();
            }
            server.router.recompose(server.engine.composition());
            (KeyOutcome::Consumed, commit)
        }
        Effect::Navigated => (KeyOutcome::Consumed, None),
        Effect::Noted | Effect::Passthrough => (KeyOutcome::Passthrough, None),
    };
    let frame = server.router.current_frame();
    let counts = frame.candidates.iter().map(|c| server.engine.frequency_of(c)).collect();
    (outcome, commit, server.router.with_frequencies(frame, counts))
}

fn shortcut_or_key(server: &mut Server, event: &KeyEvent, composing: bool) -> Effect {
    match server.router.key_route(event, composing) {
        KeyRoute::Pass => Effect::Passthrough,
        KeyRoute::Digit(action) => match action {
            DigitAction::CommitTranslation { index, sense } => {
                let candidate = server.router.layout_candidate(index).unwrap();
                let committed = server.engine.translation(&candidate, sense);
                server.router.translation_committed(committed)
            }
            DigitAction::Forget { index } => {
                let candidate = server.router.layout_candidate(index).unwrap();
                let forgotten = server.engine.forget(&candidate);
                server.router.note_forgotten(&candidate.text, forgotten)
            }
            DigitAction::Swallow => Effect::Navigated,
        },
        KeyRoute::Frequency(action) => match action {
            FrequencyAction::Adjust { candidate, up } => {
                let (changed, has_frequency) = server.engine.adjust(up);
                let composition = server.engine.composition();
                server.router.frequency_adjusted(&candidate.text, up, changed, has_frequency, composition)
            }
            FrequencyAction::Swallow => Effect::Navigated,
        },
        KeyRoute::Move(delta) => {
            server.router.move_highlight(delta);
            Effect::Navigated
        }
        KeyRoute::Page(step) => {
            server.router.page(step);
            Effect::Navigated
        }
        KeyRoute::Type(c) => {
            server.engine.buffer.push(c);
            Effect::Changed(None)
        }
    }
}

fn type_letters(server: &mut Server, letters: &str) -> Frame {
    let mut frame = server.router.current_frame();
    for c in letters.chars() {
        let vk = c.to_ascii_uppercase() as u32;
        frame = press(server, KeyEvent::new(vk, Some(c), KeyModifiers::default())).2;
    }
    frame
}

fn slot_of(frame: &Frame, text: &str) -> usize {
    frame.candidates.iter().position(|c| c.text == text).unwrap() + 1
}

fn digit_with(digit: usize, modifiers: KeyModifiers) -> KeyEvent {
    let character = if modifiers == SHIFT {
        b")!@#$%^&*("[digit] as char
    } else {
        (b'0' + digit as u8) as char
    };
    let character = if modifiers.ctrl || modifiers.win { None } else { Some(character) };
    KeyEvent::new(0x30 + digit as u32, character, modifiers)
}

fn letter_with(letter: char, modifiers: KeyModifiers) -> KeyEvent {
    KeyEvent::new(letter.to_ascii_uppercase() as u32, Some(letter), modifiers)
}

fn preedit(frame: &Frame) -> String {
    frame.preedit.iter().map(|s| s.text.as_str()).collect()
}

fn is_empty(frame: &Frame) -> bool {
    frame.preedit.is_empty() && frame.candidates.is_empty()
}

#[test]
fn alt_digit_commits_first_translation() {
    let mut server = server();
    let frame = type_letters(&mut server, "nihao");
    let slot = slot_of(&frame, "你好");
    let (outcome, commit, after) = press(&mut server, digit_with(slot, TRANSLATE));
    assert_eq!((outcome, commit.as_deref()), (KeyOutcome::Consumed, Some("hello")));
    assert!(is_empty(&after));
}

#[test]
fn second_translation_key_without_second_sense_is_swallowed() {
    let mut server = server();
    let frame = type_letters(&mut server, "nihao");
    let slot = slot_of(&frame, "你好");
    let (outcome, commit, after) = press(&mut server, digit_with(slot, TRANSLATE_SECOND));
    assert_eq!((outcome, commit), (KeyOutcome::Consumed, None));
    assert_eq!(preedit(&after), "ni'hao");
}

#[test]
fn shift_digit_forgets_candidate_and_requeries() {
    let mut server = server();
    let frame = type_letters(&mut server, "nihao");
    let slot = slot_of(&frame, "你好");
    let (outcome, commit, after) = press(&mut server, digit_with(slot, SHIFT));
    assert_eq!((outcome, commit), (KeyOutcome::Consumed, None));
    assert_eq!(preedit(&after), "ni'hao");
    assert!(!after.candidates.is_empty());
}

#[test]
fn unconfigured_modifier_digit_is_not_a_selection() {
    let mut server = server_with(RouterConfig {
        delete_keys: Some(KeyModifiers { shift: true, ..CTRL }),
        ..RouterConfig::default()
    });
    type_letters(&mut server, "nihao");
    let (outcome, commit, frame) = press(&mut server, digit_with(4, SHIFT));
    assert_eq!((outcome, commit), (KeyOutcome::Consumed, None));
    assert!(preedit(&frame).contains('$'), "{}", preedit(&frame));
    let (outcome, commit, _) = press(&mut server, digit_with(1, WIN));
    assert_eq!((outcome, commit), (KeyOutcome::Passthrough, None));
}

#[test]
fn adjust_keys_do_nothing_outside_composition() {
    let mut server = server();
    let (outcome, _, frame) = press(&mut server, letter_with('k', CTRL));
    assert_eq!(outcome, KeyOutcome::Passthrough);
    assert!(frame.frequencies.is_empty());

    let mut off = server_with(RouterConfig { adjust_keys: None, ..RouterConfig::default() });
    type_letters(&mut off, "nihao");
    let (outcome, _, frame) = press(&mut off, letter_with('k', CTRL));
    assert_eq!(outcome, KeyOutcome::Passthrough, "关掉调频键后 Ctrl+字母照旧归应用");
    assert!(frame.frequencies.is_empty());
}

#[test]
fn deleting_a_candidate_shows_a_notice_until_next_key() {
    let mut server = server();
    let frame = type_letters(&mut server, "nihao");
    let slot = slot_of(&frame, "你好");

    let (outcome, _, after) = press(&mut server, digit_with(slot, SHIFT));
    assert_eq!(outcome, KeyOutcome::Consumed);
    assert!(!is_empty(&after), "删候选后仍在组句");
    let notice = after.notice.as_deref().expect("删候选后应带屏幕提示");
    assert!(notice.contains("你好"), "提示应提到候选词，实际：{notice}");
    assert_eq!(notice, "「你好」是词库里的词，也没有学习记录，没什么可删");

    let (_, _, next) = press(&mut server, KeyEvent::new(0x28, None, KeyModifiers::default()));
    assert_eq!(next.notice, None, "提示应只活到下一次按键");
}

#[test]
fn forget_notices_say_what_was_forgotten() {
    let mut router = Router::new(RouterConfig::default());
    let text = "你好".to_string();
    router.note_forgotten(&text, Forgotten { user_word: true, learning: false });
    assert_eq!(router.notice.as_deref(), Some("已删除用户词「你好」"));
    router.note_forgotten(&text, Forgotten { user_word: false, learning: true });
    assert_eq!(router.notice.as_deref(), Some("已忘掉对「你好」的学习记录"));
}

#[test]
fn adjust_keys_preview_frequencies_and_move_the_highlighted_candidate() {
    let mut server = server();
    let frame = type_letters(&mut server, "nihao");
    assert!(frame.frequencies.is_empty(), "没按调频键时不带频次");

    let (outcome, _, held) = press(&mut server, KeyEvent::new(0x11, None, CTRL));
    assert_eq!(outcome, KeyOutcome::Passthrough, "调频修饰键本身不拦");
    assert_eq!(held.frequencies.len(), held.candidates.len());
    let highlighted = held.highlight;
    let word = held.candidates[highlighted].text.clone();
    assert_eq!(held.frequencies[highlighted], Some(WordFrequency { total: 0, selected: 0 }));

    let (outcome, commit, up) = press(&mut server, letter_with('k', CTRL));
    assert_eq!((outcome, commit), (KeyOutcome::Consumed, None));
    assert_eq!(up.candidates[up.highlight].text, word);
    assert_eq!(up.frequencies[up.highlight], Some(WordFrequency { total: 1, selected: 1 }));

    let (_, _, down) = press(&mut server, letter_with('j', CTRL));
    assert_eq!(down.frequencies[down.highlight], Some(WordFrequency { total: 0, selected: 0 }));
    let (_, _, floor) = press(&mut server, letter_with('j', CTRL));
    let notice = floor.notice.as_deref().expect("降到底应给一句提示");
    assert!(notice.contains(&word), "提示应提到候选词，实际：{notice}");

    let (outcome, _, released) = press(&mut server, KeyEvent::new(0x11, None, CTRL).released());
    assert_eq!(outcome, KeyOutcome::Passthrough);
    assert!(released.frequencies.is_empty(), "抬起后不再显示频次");
}

#[test]
fn highlight_keys_move_like_the_arrows() {
    let mut server = server();
    type_letters(&mut server, "nihao");
    assert_eq!(server.router.highlight, 0);
    let (outcome, _, frame) = press(&mut server, letter_with('n', CTRL));
    assert_eq!(outcome, KeyOutcome::Consumed);
    assert_eq!(frame.highlight, 1);
    assert!(server.router.navigated);
    // at the last candidate the highlight stays
    press(&mut server, letter_with('n', CTRL));
    assert_eq!(server.router.highlight, 1);
    press(&mut server, letter_with('p', CTRL));
    assert_eq!(server.router.highlight, 0);
}

#[test]
fn digit_on_an_empty_slot_is_swallowed() {
    let mut server = server();
    type_letters(&mut server, "nihao");
    assert_eq!(
        server.router.apply_digit_shortcut(5, TRANSLATE),
        Some(DigitAction::Swallow)
    );
    assert_eq!(server.router.apply_digit_shortcut(1, KeyModifiers::default()), None);
    assert_eq!(
        server.router.apply_digit_shortcut(2, SHIFT),
        Some(DigitAction::Forget { index: 1 })
    );
}

#[test]
fn shortcuts_turned_off_match_nothing() {
    let mut server = server_with(RouterConfig {
        translation_keys: (None, None),
        delete_keys: None,
        highlight_down: None,
        highlight_up: None,
        ..RouterConfig::default()
    });
    type_letters(&mut server, "nihao");
    for chord in [CTRL, SHIFT, TRANSLATE_SECOND, WIN] {
        for digit in 1..=9 {
            assert_eq!(server.router.apply_digit_shortcut(digit, chord), None);
        }
    }
    let (outcome, _, _) = press(&mut server, letter_with('n', CTRL));
    assert_eq!(outcome, KeyOutcome::Passthrough);
    assert_eq!(server.router.highlight, 0);
}

#[test]
fn slots_count_from_one_on_the_page_of_the_highlight() {
    let mut server = server_with(RouterConfig { page_size: 1, ..RouterConfig::default() });
    type_letters(&mut server, "nihao");
    assert_eq!(server.router.candidate_on_page(1).map(|c| c.text), Some("你好".to_string()));
    assert_eq!(server.router.candidate_on_page(0), None);
    assert_eq!(server.router.candidate_on_page(3), None);
    server.router.move_highlight(1);
    assert_eq!(server.router.candidate_on_page(1).map(|c| c.text), Some("拟好".to_string()));
}

#[test]
fn keys_are_routed_in_order() {
    let mut server = server();
    let ctrl_n = letter_with('n', CTRL);
    assert!(matches!(server.router.key_route(&ctrl_n, false), KeyRoute::Pass));
    assert!(matches!(server.router.key_route(&letter_with('a', KeyModifiers::default()), false), KeyRoute::Type('a')));
    type_letters(&mut server, "nihao");
    assert!(matches!(server.router.key_route(&ctrl_n, true), KeyRoute::Move(1)));
    assert!(matches!(server.router.key_route(&letter_with('k', CTRL), true), KeyRoute::Frequency(FrequencyAction::Adjust { up: true, .. })));
    assert!(matches!(server.router.key_route(&digit_with(1, SHIFT), true), KeyRoute::Digit(DigitAction::Forget { index: 0 })));
    assert!(matches!(server.router.key_route(&KeyEvent::new(0x22, None, KeyModifiers::default()), true), KeyRoute::Page(1)));
    assert!(matches!(server.router.key_route(&KeyEvent::new(0x26, None, KeyModifiers::default()), true), KeyRoute::Move(-1)));
    assert!(matches!(server.router.key_route(&letter_with('a', KeyModifiers::default()).released(), true), KeyRoute::Pass));
    assert!(matches!(server.router.key_route(&digit_with(1, WIN), true), KeyRoute::Pass));
}
