//! Sessions of the Linux front end: each keeps its composition while another one has
//! the focus; Shift tapped alone toggles its English mode; stale panels are ignored.

use lib::keys::{KeyEvent, KeyModifiers};
use lib::layout::{Candidate, CandidateKind, PreeditKind, PreeditSegment};
use lib::router::linux::{DiscardTarget, EngineSnapshot, KeyOutcome};
use lib::router::{Capabilities, Composition, DisplayIdentity, Effect, Router, RouterConfig};

const PROTOCOL: u32 = 3;

fn caps() -> Capabilities {
    Capabilities { password: false, sensitive: false, disabled: false }
}

fn query(text: &str, words: &[&str]) -> Composition {
    Composition::Query {
        preedit: vec![PreeditSegment { text: text.to_string(), kind: PreeditKind::Typed }],
        cursor: text.chars().count(),
        cells: words
            .iter()
            .map(|w| Some(Candidate::new(w.to_string(), CandidateKind::Chinese)))
            .collect(),
    }
}

fn snapshot(composing: bool, pending: &str, raw: &str) -> EngineSnapshot {
    EngineSnapshot { composing, pending: pending.to_string(), raw: raw.to_string() }
}

fn router_with_two_sessions() -> Router {
    let mut router = Router::new(RouterConfig::default());
    assert!(router.open_session(1, Some("gedit".to_string()), PROTOCOL, PROTOCOL));
    assert!(router.open_session(2, None, PROTOCOL, PROTOCOL));
    router.linux_capabilities(1, caps());
    router.linux_capabilities(2, caps());
    router
}

#[test]
fn a_plugin_of_another_protocol_is_ignored() {
    let mut router = Router::new(RouterConfig::default());
    assert!(!router.open_session(1, None, 2, PROTOCOL));
    assert!(!router.contains_session(1));
    assert!(router.open_session(1, None, PROTOCOL, PROTOCOL));
    assert!(router.contains_session(1));
    router.close_session(1);
    assert!(!router.contains_session(1));
}

#[test]
fn each_session_keeps_its_composition() {
    let mut router = router_with_two_sessions();
    router.linux_focus(1, true);
    router.recompose(query("ni'hao", &["你好", "拟好"]));
    router.move_highlight(1);
    assert_eq!(router.highlight, 1);

    let (_, moved) = router.linux_focus(2, true);
    assert!(moved);
    assert!(router.composed.is_none());
    assert_eq!(router.highlight, 0);

    let (_, moved) = router.linux_focus(1, true);
    assert!(moved);
    assert_eq!(router.highlight, 1);
    assert!(router.navigated);
    assert_eq!(router.current_frame().candidates[1].text, "拟好");
    assert_eq!(router.linux_focus(1, true), (false, false));
}

#[test]
fn shift_tapped_alone_toggles_the_session_mode_and_commits() {
    let mut router = router_with_two_sessions();
    let shift = KeyEvent::new(0x10, None, KeyModifiers { shift: true, ..KeyModifiers::default() });
    assert_eq!(router.linux_key_press(1, &shift), None);
    let step = router.linux_key_release(1, &shift.released(), &snapshot(true, "", "nihao"));
    assert_eq!(step.outcome, KeyOutcome::Consumed);
    assert_eq!(step.commit.as_deref(), Some("nihao"));
    assert!(step.take_raw && step.reset);

    let a = KeyEvent::new(0x41, Some('a'), KeyModifiers::default());
    let stamped = router.linux_key_press(1, &a).unwrap();
    assert!(stamped.modifiers.english_mode);
    // the other session keeps its own mode
    let stamped = router.linux_key_press(2, &a).unwrap();
    assert!(!stamped.modifiers.english_mode);

    // Shift with another key in between is no tap
    router.linux_key_press(1, &shift);
    router.linux_key_press(1, &a);
    let step = router.linux_key_release(1, &shift.released(), &snapshot(false, "", ""));
    assert_eq!(step.outcome, KeyOutcome::Passthrough);
}

#[test]
fn password_fields_are_not_handled_and_their_input_is_thrown_away() {
    let mut router = router_with_two_sessions();
    router.linux_focus(1, true);
    router.recompose(query("ni", &["你"]));
    let changed = router.linux_capabilities(
        1,
        Capabilities { password: true, sensitive: false, disabled: false },
    );
    assert_eq!(changed, Some((true, DiscardTarget::Focused)));
    assert!(router.composed.is_none());
    assert!(router.linux_key_ignored(1));
    assert!(router.linux_capabilities(1, Capabilities { password: true, sensitive: false, disabled: false }).is_none());
    let mut fresh = Router::new(RouterConfig::default());
    fresh.open_session(7, None, PROTOCOL, PROTOCOL);
    assert!(fresh.linux_key_ignored(7));
}

#[test]
fn a_stale_panel_click_is_ignored() {
    let mut router = router_with_two_sessions();
    router.linux_focus(1, true);
    router.recompose(query("ni", &["你", "泥"]));
    let identity = DisplayIdentity { generation: 13, context: "001122".to_string(), revision: 4 };
    let i = router.sessions.iter().position(|s| s.id == 1).unwrap();
    router.sessions[i].display_identity = Some(identity.clone());
    assert!(router.valid_panel_event(1, &identity));
    assert_eq!(router.linux_candidate(1, &identity, 1), Some(1));
    assert_eq!(router.linux_candidate(1, &identity, 9), None);

    let target = router.discard_session(1);
    assert_eq!(target, DiscardTarget::Focused);
    assert!(!router.valid_panel_event(1, &identity));
    assert_eq!(router.linux_candidate(1, &identity, 1), None);
    assert_eq!(router.linux_page(1, &identity, true), (KeyOutcome::Passthrough, false));
}

#[test]
fn deactivation_commits_what_was_typed() {
    let mut router = router_with_two_sessions();
    let step = router.linux_deactivate(1, false, false, false, &snapshot(true, "避", "避lw"));
    assert_eq!(step.commit.as_deref(), Some("避lw"));
    assert!(step.take_raw && step.reset);
    let step = router.linux_deactivate(1, true, true, false, &snapshot(true, "避", "避lw"));
    assert_eq!(step.commit, None);
    assert!(step.take_raw);
    let step = router.linux_deactivate(2, false, false, true, &snapshot(true, "", "ni"));
    assert_eq!(step.commit, None);
    assert!(!step.reset);
}

#[test]
fn pending_words_go_first_once_the_composition_ends() {
    let router = Router::new(RouterConfig::default());
    assert_eq!(
        router.settle_pending(Some("吧".to_string()), false, &"避".to_string()),
        (Some("避吧".to_string()), true)
    );
    assert_eq!(router.settle_pending(None, false, &"避".to_string()), (Some("避".to_string()), true));
    assert_eq!(
        router.settle_pending(Some("吧".to_string()), true, &"避".to_string()),
        (Some("吧".to_string()), false)
    );
    let step = router.commit_request(&snapshot(false, "", ""));
    assert_eq!(step.commit, None);
    assert!(!step.take_raw && step.reset);
    let step = router.key_effect_step(Effect::Passthrough, &"避".to_string());
    assert_eq!(step.commit.as_deref(), Some("避"));
    assert!(step.take_pending);
    let step = router.key_effect_step(Effect::Changed(Some(String::new())), &String::new());
    assert_eq!(step.commit, None);
    assert!(step.recompose);
}

#[test]
fn the_frame_belongs_to_the_focused_session_only() {
    let mut router = router_with_two_sessions();
    router.linux_focus(1, true);
    router.recompose(query("ni", &["你"]));
    assert_eq!(router.linux_frame(1).candidates.len(), 1);
    assert!(router.linux_frame(2).candidates.is_empty());
    assert!(router.linux_frame(9).preedit.is_empty());
}
