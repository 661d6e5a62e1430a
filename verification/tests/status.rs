//! The global mode, the floating status bar and the mode badge.

use lib::layout::ScreenRect;
use lib::router::status::{BadgeView, ConfigValue, IndicatorCommand, StatusCommand, StatusEvent};
use lib::router::{Router, RouterConfig};

/// What the user interface was asked to do: the status bar's label (`None` when
/// hidden) and the badges flashed.
#[derive(Default)]
struct Recorder {
    calls: Vec<Option<String>>,
    badges: Vec<(bool, Option<ScreenRect>)>,
    persisted: Vec<(String, String, ConfigValue)>,
}

impl Recorder {
    fn take(&mut self, commands: Vec<StatusCommand>) {
        for command in commands {
            match command {
                StatusCommand::Show(view) => {
                    let mut label = if view.english { "英" } else { "中" }.to_string();
                    if let Some(scheme) = view.scheme {
                        label.push_str(" · ");
                        label.push_str(&scheme);
                    }
                    self.calls.push(Some(label));
                }
                StatusCommand::Hide => self.calls.push(None),
                StatusCommand::FlashBadge(BadgeView { english, anchor }) => {
                    self.badges.push((english, anchor))
                }
                StatusCommand::Persist { section, key, value } => {
                    self.persisted.push((section, key, value))
                }
                _ => {}
            }
        }
    }
}

fn router_with(config: RouterConfig) -> Router {
    Router::new(config)
}

fn mode_changed(router: &mut Router, recorder: &mut Recorder, english: bool) {
    let out = router.handle_mode_changed(english);
    recorder.take(out);
}

fn status_event(router: &mut Router, recorder: &mut Recorder, event: StatusEvent) {
    let out = router.handle_status_event(event);
    recorder.take(out);
}

/// A front end takes the mode (activation, focus, polling): the global mode it gets.
fn synced_mode(router: &mut Router, recorder: &mut Recorder) -> Option<bool> {
    let out = router.handle_ime_active();
    recorder.take(out);
    Some(router.english)
}

fn rect() -> ScreenRect {
    ScreenRect { left: 100, top: 200, right: 102, bottom: 220 }
}

#[test]
fn status_bar_mode_click_changes_the_global_mode() {
    let mut router = router_with(RouterConfig { status_enabled: true, ..RouterConfig::default() });
    let mut recorder = Recorder::default();
    mode_changed(&mut router, &mut recorder, false);

    status_event(&mut router, &mut recorder, StatusEvent::ToggleMode);
    assert_eq!(recorder.calls.last(), Some(&Some("英".to_owned())));
    assert_eq!(synced_mode(&mut router, &mut recorder), Some(true));
    assert_eq!(synced_mode(&mut router, &mut recorder), Some(true));
    assert_eq!(synced_mode(&mut router, &mut recorder), Some(true));
}

#[test]
fn status_bar_mode_click_is_ignored_when_builtin_english_is_off() {
    let mut router = router_with(RouterConfig {
        status_enabled: true,
        english_mode: false,
        ..RouterConfig::default()
    });
    let mut recorder = Recorder::default();
    mode_changed(&mut router, &mut recorder, false);
    assert_eq!(recorder.calls.last(), Some(&Some("中".to_owned())));

    status_event(&mut router, &mut recorder, StatusEvent::ToggleMode);
    assert_eq!(recorder.calls.last(), Some(&Some("中".to_owned())));
    assert_eq!(synced_mode(&mut router, &mut recorder), Some(false));
    mode_changed(&mut router, &mut recorder, true);
    assert_eq!(synced_mode(&mut router, &mut recorder), Some(false));
}

#[test]
fn status_bar_follows_mode_when_enabled() {
    let mut router = router_with(RouterConfig { status_enabled: true, ..RouterConfig::default() });
    let mut recorder = Recorder::default();
    mode_changed(&mut router, &mut recorder, false);
    mode_changed(&mut router, &mut recorder, true);
    // closing a session (the application quit) leaves the bar alone
    assert_eq!(recorder.calls, vec![Some("中".to_owned()), Some("英".to_owned())]);

    let hide = router.handle_ime_switched();
    recorder.take(vec![hide]);
    assert_eq!(recorder.calls.last(), Some(&None));
}

#[test]
fn status_bar_shows_shuangpin_scheme_in_chinese() {
    let mut router = router_with(RouterConfig {
        status_enabled: true,
        scheme_label: "小鹤双拼".to_string(),
        ..RouterConfig::default()
    });
    let mut recorder = Recorder::default();
    mode_changed(&mut router, &mut recorder, false);
    assert_eq!(recorder.calls, vec![Some("中 · 小鹤双拼".to_owned())]);
}

#[test]
fn status_bar_stays_hidden_when_disabled() {
    let mut router = router_with(RouterConfig::default());
    let mut recorder = Recorder::default();
    mode_changed(&mut router, &mut recorder, false);
    assert_eq!(recorder.calls, vec![None]);
}

#[test]
fn indicator_menu_toggles_status_bar() {
    let mut router = router_with(RouterConfig::default());
    let mut recorder = Recorder::default();
    mode_changed(&mut router, &mut recorder, false);

    let out = router.handle_indicator(IndicatorCommand::ToggleStatusBar);
    recorder.take(out);
    assert_eq!(recorder.calls.last(), Some(&Some("中".to_owned())));
    let out = router.handle_indicator(IndicatorCommand::ToggleStatusBar);
    recorder.take(out);
    assert_eq!(recorder.calls.last(), Some(&None));
    assert_eq!(
        recorder.persisted,
        vec![
            ("status_bar".to_string(), "enabled".to_string(), ConfigValue::Bool(true)),
            ("status_bar".to_string(), "enabled".to_string(), ConfigValue::Bool(false)),
        ]
    );
}

#[test]
fn mode_is_shared_by_every_app() {
    let mut router = router_with(RouterConfig { status_enabled: true, ..RouterConfig::default() });
    let mut recorder = Recorder::default();

    mode_changed(&mut router, &mut recorder, true);
    assert_eq!(synced_mode(&mut router, &mut recorder), Some(true));
    assert_eq!(synced_mode(&mut router, &mut recorder), Some(true));

    let hide = router.handle_ime_switched();
    recorder.take(vec![hide]);
    assert_eq!(recorder.calls.last(), Some(&None));
    assert_eq!(synced_mode(&mut router, &mut recorder), Some(true));
    assert_eq!(recorder.calls.last(), Some(&Some("英".to_owned())));
}

#[test]
fn mode_badge_flashes_only_when_the_mode_really_changes() {
    let mut router = router_with(RouterConfig { mode_badge: true, ..RouterConfig::default() });
    let mut recorder = Recorder::default();

    mode_changed(&mut router, &mut recorder, false);
    assert!(recorder.badges.is_empty(), "没变模式不该闪");

    mode_changed(&mut router, &mut recorder, true);
    assert_eq!(recorder.badges, vec![(true, None)]);

    mode_changed(&mut router, &mut recorder, true);
    assert_eq!(recorder.badges.len(), 1);

    status_event(&mut router, &mut recorder, StatusEvent::ToggleMode);
    assert_eq!(recorder.badges.last(), Some(&(false, None)));
}

#[test]
fn mode_badge_follows_the_last_caret_rect() {
    let mut router = router_with(RouterConfig { mode_badge: true, ..RouterConfig::default() });
    let mut recorder = Recorder::default();

    router.note_caret(rect());
    mode_changed(&mut router, &mut recorder, true);
    assert_eq!(recorder.badges, vec![(true, Some(rect()))]);

    mode_changed(&mut router, &mut recorder, false);
    assert_eq!(recorder.badges.last(), Some(&(false, Some(rect()))));
}

#[test]
fn mode_badge_is_silent_when_turned_off() {
    let mut router = router_with(RouterConfig { mode_badge: false, ..RouterConfig::default() });
    let mut recorder = Recorder::default();
    mode_changed(&mut router, &mut recorder, true);
    assert!(recorder.badges.is_empty());
}

#[test]
fn toggling_the_mode_twice_comes_back() {
    let mut router = router_with(RouterConfig { status_enabled: true, ..RouterConfig::default() });
    let mut recorder = Recorder::default();
    mode_changed(&mut router, &mut recorder, false);
    status_event(&mut router, &mut recorder, StatusEvent::ToggleMode);
    status_event(&mut router, &mut recorder, StatusEvent::ToggleMode);
    assert!(!router.english);
    assert_eq!(recorder.calls.last(), Some(&Some("中".to_owned())));
    assert_eq!(recorder.badges, vec![(true, None), (false, None)]);
}

#[test]
fn punctuation_toggle_flips_the_current_mode_only_and_is_written_back() {
    let mut router = router_with(RouterConfig { status_enabled: true, ..RouterConfig::default() });
    let mut recorder = Recorder::default();
    mode_changed(&mut router, &mut recorder, true);
    status_event(&mut router, &mut recorder, StatusEvent::TogglePunctuation);
    assert!(router.config.english_full_width);
    assert!(router.config.full_width);
    assert_eq!(
        recorder.persisted,
        vec![(
            "general".to_string(),
            "english_full_width_punctuation".to_string(),
            ConfigValue::Bool(true)
        )]
    );
}

#[test]
fn dragging_the_bar_stores_its_place() {
    let mut router = router_with(RouterConfig { status_enabled: true, ..RouterConfig::default() });
    let mut recorder = Recorder::default();
    mode_changed(&mut router, &mut recorder, false);
    status_event(&mut router, &mut recorder, StatusEvent::Moved(-5, 40));
    assert_eq!(router.config.status_pos, Some((-5, 40)));
    assert_eq!(
        recorder.persisted,
        vec![
            ("status_bar".to_string(), "x".to_string(), ConfigValue::Int(-5)),
            ("status_bar".to_string(), "y".to_string(), ConfigValue::Int(40)),
        ]
    );
}

#[test]
fn menu_entries_for_the_user_interface_are_handed_on() {
    let mut router = router_with(RouterConfig::default());
    assert_eq!(router.handle_indicator(IndicatorCommand::OpenSettings), vec![StatusCommand::OpenSettings]);
    assert_eq!(router.handle_indicator(IndicatorCommand::OpenDownload), vec![StatusCommand::OpenDownload]);
    assert_eq!(
        router.handle_indicator(IndicatorCommand::LearnPhrase),
        vec![StatusCommand::OpenLearnPhrase]
    );
}
