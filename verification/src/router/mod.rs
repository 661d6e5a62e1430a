//! The input server's router: the composition as the candidate window shows it, the
//! highlight, the shortcuts pressed during composition, the global Chinese / English
//! mode with its status bar, and the phrase-learning review.
//!
//! The conversion engine lives with the caller. Where a decision needs the engine's
//! answer, it is made in two steps: one method says what to ask, the caller asks, and
//! another method takes the answer.

use vstd::prelude::*;

use crate::keys::{KeyCombo, KeyModifiers, Modifiers};
use crate::layout::{Candidate, CandidateLayout, PreeditSegment, ScreenRect};

pub mod navigation;
pub mod shortcuts;
pub mod status;
pub mod phrase;
pub mod learn_phrase;
pub mod linux;
pub mod phrase_window;

verus! {

/// What the router needs from the configuration.
#[derive(Debug)]
pub struct RouterConfig {
    /// Candidates per page.
    pub page_size: usize,
    /// Chords that commit a candidate's first / second translation (with a digit);
    /// `None` is a shortcut turned off.
    pub translation_keys: (Option<KeyModifiers>, Option<KeyModifiers>),
    /// Chord that forgets a candidate (with a digit).
    pub delete_keys: Option<KeyModifiers>,
    /// Chord of the frequency key: held, it previews counts; with K / J it moves a candidate.
    pub adjust_keys: Option<KeyModifiers>,
    /// Combos that move the highlight down / up.
    pub highlight_down: Option<KeyCombo>,
    pub highlight_up: Option<KeyCombo>,
    /// Combo that starts learning a phrase from the selection.
    pub learn_phrase: Option<KeyCombo>,
    /// The built-in English mode is available.
    pub english_mode: bool,
    /// Flash a mode badge beside the caret when the mode changes.
    pub mode_badge: bool,
    /// Show the floating status bar.
    pub status_enabled: bool,
    /// Punctuation full width, in Chinese / in English mode.
    pub full_width: bool,
    pub english_full_width: bool,
    /// Where the status bar was dragged to.
    pub status_pos: Option<(i32, i32)>,
    /// The input scheme is Zhuyin.
    pub zhuyin: bool,
    /// Name of the input scheme shown on the status bar; empty for plain pinyin.
    pub scheme_label: String,
}

pub open spec fn ctrl_chord() -> KeyModifiers {
    KeyModifiers { ctrl: true, ..KeyModifiers::default_spec() }
}

pub open spec fn shift_chord() -> KeyModifiers {
    KeyModifiers { shift: true, ..KeyModifiers::default_spec() }
}

pub open spec fn ctrl_shift_chord() -> KeyModifiers {
    KeyModifiers { ctrl: true, shift: true, ..KeyModifiers::default_spec() }
}

pub open spec fn control_letter(key: char) -> KeyCombo {
    KeyCombo {
        modifiers: Modifiers { option: false, shift: false, control: true, command: false },
        key,
    }
}

impl Default for RouterConfig {
    fn default() -> (r: RouterConfig)
        ensures
            r.page_size == 9,
            r.translation_keys == (Some(ctrl_chord()), Some(ctrl_shift_chord())),
            r.delete_keys == Some(shift_chord()),
            r.adjust_keys == Some(ctrl_chord()),
            r.highlight_down == Some(control_letter('n')),
            r.highlight_up == Some(control_letter('p')),
            r.learn_phrase is None,
            r.english_mode,
            r.mode_badge,
            !r.status_enabled,
            r.full_width,
            !r.english_full_width,
            r.status_pos is None,
            !r.zhuyin,
            r.scheme_label@.len() == 0,
    {
        let none = KeyModifiers::none();
        let ctrl = KeyModifiers { ctrl: true, ..none };
        let shift = KeyModifiers { shift: true, ..none };
        let ctrl_shift = KeyModifiers { ctrl: true, shift: true, ..none };
        let control = Modifiers { option: false, shift: false, control: true, command: false };
        RouterConfig {
            page_size: 9,
            translation_keys: (Some(ctrl), Some(ctrl_shift)),
            delete_keys: Some(shift),
            adjust_keys: Some(ctrl),
            highlight_down: Some(KeyCombo { modifiers: control, key: 'n' }),
            highlight_up: Some(KeyCombo { modifiers: control, key: 'p' }),
            learn_phrase: None,
            english_mode: true,
            mode_badge: true,
            status_enabled: false,
            full_width: true,
            english_full_width: false,
            status_pos: None,
            zhuyin: false,
            scheme_label: String::new(),
        }
    }
}

/// The composition as it is shown.
#[derive(Debug, Clone)]
pub enum Composed {
    /// The query failed: the typed letters, shown as they are.
    Raw { text: String, cursor: usize },
    /// The preedit line and the candidates.
    Candidates { preedit: Vec<PreeditSegment>, cursor: usize, layout: CandidateLayout },
}

/// What the engine reported after the buffer changed.
#[derive(Debug, Clone)]
pub enum Composition {
    /// Nothing is being composed.
    Idle,
    /// The query failed; the plain preedit (pending words first) and its cursor.
    Plain { text: String, cursor: usize },
    /// The query's preedit, cursor, and candidate cells.
    Query { preedit: Vec<PreeditSegment>, cursor: usize, cells: Vec<Option<Candidate>> },
}

/// What one key did to the composition.
#[derive(Debug, Clone, PartialEq, Eq)]
pub enum Effect {
    /// The buffer changed and the composition is to be rebuilt; with the text to commit.
    Changed(Option<String>),
    /// Only the highlight or the page moved.
    Navigated,
    /// Only server-side state changed (the frequency preview); the key goes to the
    /// application, and nothing pending is committed with it.
    Noted,
    /// Not consumed; the key goes to the application.
    Passthrough,
}

/// A phrase being learned from the application's selection.
#[derive(Debug, Clone)]
pub struct Phrase {
    /// The selected text.
    pub text: String,
    /// The pinyin being edited, syllables separated by `'`.
    pub pinyin: String,
}

/// The input server's state.
#[derive(Debug)]
pub struct Router {
    pub config: RouterConfig,
    pub composed: Option<Composed>,
    /// Highlighted candidate, across pages.
    pub highlight: usize,
    /// The user paged or moved the highlight since the last rebuild.
    pub navigated: bool,
    pub sentence: Option<String>,
    /// One line of notice, shown with the next frame only.
    pub notice: Option<String>,
    /// The frequency key is held: frames carry selection counts.
    pub preview_frequency: bool,
    /// The phrase under review, if any.
    pub phrase: Option<Phrase>,
    /// The line shown after a phrase was learned.
    pub phrase_notice: Option<String>,
    /// The global mode is English.
    pub english: bool,
    /// Qingjian is the current input method.
    pub ime_active: bool,
    /// Last caret rectangle reported; the mode badge is placed by it.
    pub badge_anchor: Option<ScreenRect>,
    /// Rectangle of the last selection read for phrase learning.
    pub last_rect: Option<ScreenRect>,
    /// Open sessions (one per input context of the Linux front end).
    pub sessions: Vec<SessionInfo>,
    /// The session whose composition the router state above belongs to.
    pub focused: Option<u64>,
    /// Counter of candidate-panel revisions; bumped when a shown panel goes stale.
    pub display_revision: u64,
}

/// What the Fcitx plugin reports it can do for an input context.
#[derive(Debug, Clone, Copy, PartialEq, Eq, Structural)]
pub struct Capabilities {
    pub password: bool,
    pub sensitive: bool,
    pub disabled: bool,
}

/// Which candidate panel a click belongs to.
#[derive(Debug, Clone, PartialEq, Eq)]
pub struct DisplayIdentity {
    pub generation: u64,
    pub context: String,
    pub revision: u64,
}

/// One open session.
#[derive(Debug, Clone)]
pub struct SessionInfo {
    pub id: u64,
    pub app: Option<String>,
    pub capabilities: Option<Capabilities>,
    /// Password field or disabled context: keys are not handled.
    pub disabled: bool,
    /// The context has focus.
    pub active: bool,
    /// Shift went down alone; its release toggles the session's English mode.
    pub shift_pending: bool,
    pub english: bool,
    /// A frame is on screen for this session.
    pub showing: bool,
    /// The composition kept while another session has the focus.
    pub composed: Option<Composed>,
    pub highlight: usize,
    pub navigated: bool,
    pub display_identity: Option<DisplayIdentity>,
}

/// The cells of a composition; none when it is raw or absent.
pub open spec fn composed_cells(composed: Option<Composed>) -> Seq<Option<Candidate>> {
    match composed {
        Some(Composed::Candidates { layout, .. }) => layout.cells@,
        _ => seq![],
    }
}

/// Some cell holds a candidate.
pub open spec fn has_candidate(cells: Seq<Option<Candidate>>) -> bool {
    exists|i: int| 0 <= i < cells.len() && (#[trigger] cells[i]) is Some
}

/// A composition with its highlight is consistent: the layout pages like the
/// configuration says, the highlight is inside the candidates and rests on a candidate
/// when there is one.
pub open spec fn composition_ok(composed: Option<Composed>, highlight: usize, page_size: usize) -> bool {
    let cells = composed_cells(composed);
    &&& (composed matches Some(Composed::Candidates { layout, .. }) ==> layout.page_size == page_size)
    &&& (cells.len() == 0 ==> highlight == 0)
    &&& (cells.len() > 0 ==> highlight < cells.len())
    &&& (has_candidate(cells) ==> cells[highlight as int] is Some)
}

impl Router {
    pub open spec fn cells(self) -> Seq<Option<Candidate>> {
        composed_cells(self.composed)
    }

    pub open spec fn count(self) -> nat {
        self.cells().len()
    }

    /// The router's invariant: pages are not empty and the composition is consistent.
    pub open spec fn wf(self) -> bool {
        &&& self.config.page_size > 0
        &&& composition_ok(self.composed, self.highlight, self.config.page_size)
    }

    /// Nothing composed or open, Chinese mode, not yet the active input method.
    pub open spec fn is_fresh(self, config: RouterConfig) -> bool {
        &&& self.config == config
        &&& self.composed is None
        &&& self.highlight == 0
        &&& !self.navigated
        &&& self.sentence is None
        &&& self.notice is None
        &&& !self.preview_frequency
        &&& self.phrase is None
        &&& self.phrase_notice is None
        &&& !self.english
        &&& !self.ime_active
        &&& self.badge_anchor is None
        &&& self.last_rect is None
        &&& self.sessions@.len() == 0
        &&& self.focused is None
        &&& self.display_revision == 0
    }

    /// A router with nothing composed, in Chinese mode, not yet the active input method.
    pub fn new(config: RouterConfig) -> (r: Router)
        requires
            config.page_size > 0,
        ensures
            r.is_fresh(config),
            r.wf(),
    {
        Router {
            config,
            composed: None,
            highlight: 0,
            navigated: false,
            sentence: None,
            notice: None,
            preview_frequency: false,
            phrase: None,
            phrase_notice: None,
            english: false,
            ime_active: false,
            badge_anchor: None,
            last_rect: None,
            sessions: Vec::new(),
            focused: None,
            display_revision: 0,
        }
    }
}

} // verus!
