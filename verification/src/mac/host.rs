//! The macOS host's decisions: the mode from Caps Lock and the switch keys, the
//! "learn a phrase" window, and the whole-sentence rescoring with its three timers
//! (waiting for the model to load, the debounce after the last key, polling for scores).

use vstd::prelude::*;

use super::mode::{MacSwitchAction, ModeState};
use crate::layout::{
    cloud_words, empty_count, filled, lemma_cloud_words_are_cloud, law_cloud_words_come_back,
    Candidate, CandidateKind, CandidateLayout,
};
use crate::router::learn_phrase::{phrase_error_text, phrase_error_text_spec, LearnPhraseError};
use crate::text::{append, join, joined, string_of, trim, trimmed, views};

verus! {

/// Default wait for rescoring results, in milliseconds: the local model answers in tens
/// of milliseconds.
pub const DEFAULT_MAX_WAIT_MS: u64 = 2000;

/// The rescoring timers, each either running or not.
#[derive(Debug, Clone, Copy, PartialEq, Eq, Structural)]
pub struct RescoreMonitor {
    /// Looking every so often whether the model has loaded.
    pub loading: bool,
    /// The one-shot debounce timer after a key.
    pub debounce: bool,
    /// Polling for scores.
    pub polling: bool,
    /// When this round started waiting (milliseconds of a monotonic clock).
    pub since: Option<u64>,
    /// How long a round may wait, in milliseconds.
    pub max_wait: u64,
}

impl RescoreMonitor {
    pub fn new() -> (r: RescoreMonitor)
        ensures
            r == (RescoreMonitor {
                loading: false,
                debounce: false,
                polling: false,
                since: None,
                max_wait: DEFAULT_MAX_WAIT_MS,
            }),
    {
        RescoreMonitor {
            loading: false,
            debounce: false,
            polling: false,
            since: None,
            max_wait: DEFAULT_MAX_WAIT_MS,
        }
    }

    pub fn set_max_wait(&mut self, max_wait: u64)
        ensures
            *final(self) == (RescoreMonitor { max_wait, ..*old(self) }),
    {
        self.max_wait = max_wait;
    }

    /// The model is loading: look every so often (once started, it keeps running).
    pub fn watch_loading(&mut self)
        ensures
            *final(self) == (RescoreMonitor { loading: true, ..*old(self) }),
    {
        self.loading = true;
    }

    pub fn stop_watching(&mut self)
        ensures
            *final(self) == (RescoreMonitor { loading: false, ..*old(self) }),
    {
        self.loading = false;
    }

    /// Another key: the debounce starts over.
    pub fn schedule(&mut self)
        ensures
            *final(self) == (RescoreMonitor { debounce: true, ..*old(self) }),
    {
        self.debounce = true;
    }

    /// The request went out at `now`: poll for the scores.
    pub fn start_polling(&mut self, now: u64)
        ensures
            *final(self) == (RescoreMonitor { polling: true, since: Some(now), ..*old(self) }),
    {
        self.since = Some(now);
        self.polling = true;
    }

    /// Stops the debounce and the polling.
    pub fn stop(&mut self)
        ensures
            *final(self) == (RescoreMonitor {
                debounce: false,
                polling: false,
                since: None,
                ..*old(self)
            }),
    {
        self.debounce = false;
        self.polling = false;
        self.since = None;
    }

    pub open spec fn expired_spec(self, now: u64) -> bool {
        match self.since {
            Some(since) => (if now >= since {
                now - since
            } else {
                0
            }) > self.max_wait,
            None => false,
        }
    }

    /// This round has waited longer than it may.
    pub fn expired(&self, now: u64) -> (r: bool)
        ensures
            r == self.expired_spec(now),
    {
        match self.since {
            Some(since) => {
                let elapsed = if now >= since {
                    now - since
                } else {
                    0
                };
                elapsed > self.max_wait
            },
            None => false,
        }
    }
}

/// The "learn a phrase" window's fields.
#[derive(Debug, Clone)]
pub struct LearnPhraseForm {
    pub phrase: String,
    /// Syllables separated by spaces; filled from the dictionary until the user edits it.
    pub pinyin: String,
    /// The status line.
    pub status: String,
    /// The status line is an error (red), not a success (grey).
    pub status_is_error: bool,
    /// The user edited the pinyin: lookups no longer overwrite it.
    pub dirty: bool,
    /// The pinyin is being set by the program: that change is no edit.
    pub updating: bool,
}

impl LearnPhraseForm {
    pub open spec fn cleared(self) -> bool {
        self.phrase@.len() == 0 && self.pinyin@.len() == 0 && !self.dirty && !self.updating
    }

    pub fn new() -> (r: LearnPhraseForm)
        ensures
            r.cleared(),
            r.status@.len() == 0,
            !r.status_is_error,
    {
        LearnPhraseForm {
            phrase: String::new(),
            pinyin: String::new(),
            status: String::new(),
            status_is_error: false,
            dirty: false,
            updating: false,
        }
    }

    pub fn phrase_text(&self) -> (r: String)
        ensures
            r == self.phrase,
    {
        self.phrase.clone()
    }

    pub fn pinyin_text(&self) -> (r: String)
        ensures
            r == self.pinyin,
    {
        self.pinyin.clone()
    }

    pub fn pinyin_dirty(&self) -> (r: bool)
        ensures
            r == self.dirty,
    {
        self.dirty
    }

    /// The program fills the pinyin box: the syllables joined by spaces, or empty.
    pub fn set_pinyin(&mut self, syllables: Option<&Vec<String>>)
        ensures
            final(self).pinyin@ == match syllables {
                Some(parts) => joined(views(parts@), " "@),
                None => seq![],
            },
            final(self).dirty == old(self).dirty,
            !final(self).updating,
            final(self).phrase == old(self).phrase,
            final(self).status == old(self).status,
            final(self).status_is_error == old(self).status_is_error,
    {
        self.updating = true;
        self.pinyin = match syllables {
            Some(parts) => join(parts, " "),
            None => String::new(),
        };
        self.updating = false;
    }

    /// The user typed in the pinyin box (a change made by the program does not count).
    pub fn mark_pinyin_dirty(&mut self)
        ensures
            final(self).dirty == (old(self).dirty || !old(self).updating),
            final(self).phrase == old(self).phrase && final(self).pinyin == old(self).pinyin,
            final(self).updating == old(self).updating,
            final(self).status == old(self).status,
            final(self).status_is_error == old(self).status_is_error,
    {
        if !self.updating {
            self.dirty = true;
        }
    }

    /// An empty phrase (white space only) releases the pinyin box again.
    pub fn clear_dirty_if_phrase_empty(&mut self)
        ensures
            final(self).dirty == (old(self).dirty && trimmed(old(self).phrase@).len() != 0),
            final(self).phrase == old(self).phrase && final(self).pinyin == old(self).pinyin,
            final(self).updating == old(self).updating,
            final(self).status == old(self).status,
            final(self).status_is_error == old(self).status_is_error,
    {
        let t = trim(self.phrase.as_str());
        if t.as_str().is_empty() {
            self.dirty = false;
        }
    }

    pub fn set_error(&mut self, text: String)
        ensures
            final(self).status == text,
            final(self).status_is_error,
            final(self).phrase == old(self).phrase && final(self).pinyin == old(self).pinyin,
            final(self).dirty == old(self).dirty,
            final(self).updating == old(self).updating,
    {
        self.status = text;
        self.status_is_error = true;
    }

    /// The status line shows a success (grey).
    pub fn set_success(&mut self, text: String)
        ensures
            *final(self) == (LearnPhraseForm { status: text, status_is_error: false, ..*old(self) }),
    {
        self.status = text;
        self.status_is_error = false;
    }

    /// Empties the form: both boxes, the status line, and the pinyin is the program's
    /// again.
    fn clear(&mut self)
        ensures
            final(self).cleared(),
            final(self).status@.len() == 0,
            final(self).status_is_error == old(self).status_is_error,
    {
        self.updating = true;
        self.phrase = String::new();
        self.pinyin = String::new();
        self.status = String::new();
        self.updating = false;
        self.dirty = false;
    }

    /// After a phrase was recorded: the form is cleared for the next one and the status
    /// line says which phrase went in.
    pub fn clear_after_success(&mut self, learned: &String)
        ensures
            final(self).cleared(),
            final(self).status@ == "已录入「"@ + learned@ + "」"@,
            !final(self).status_is_error,
    {
        self.clear();
        let mut status = string_of("已录入「");
        append(&mut status, learned.as_str());
        append(&mut status, "」");
        self.set_success(status);
    }
}

/// The result of looking whether the model finished loading.
#[derive(Debug, Clone, Copy, PartialEq, Eq, Structural)]
pub enum LoadPoll {
    /// Loaded and warmed up.
    Loaded,
    /// Loading failed.
    Failed,
    /// Still loading.
    Pending,
    /// The loading thread went away without an answer.
    Gone,
}

/// What the poll for rescoring found and did.
#[derive(Debug, Clone, Copy, PartialEq, Eq, Structural)]
pub enum PollOutcome {
    /// Nothing is composed (or a translation is shown): the timers stopped.
    Stopped,
    /// No scores yet.
    Waiting,
    /// No scores within the allowed wait: this round is given up.
    Expired,
    /// Scores arrived, but the user paged or moved: they are kept, the window stays.
    Kept,
    /// Scores arrived: requery and redraw the page.
    Redraw,
}

/// The macOS host state that the decisions read and change.
#[derive(Debug, Clone)]
pub struct Host {
    /// The built-in English mode is available (`[general] english_mode`).
    pub english_mode: bool,
    /// Caps Lock switches the mode (`[shortcut] mac_caps_lock_switch`).
    pub mac_caps_lock_switch: bool,
    pub mode: ModeState,
    pub learn_phrase: LearnPhraseForm,
    /// The model is loading in the background.
    pub model_loading: bool,
    pub rescore: RescoreMonitor,
    /// The page of the candidate window.
    pub page: usize,
    /// The user moved the highlight or paged since the last query.
    pub navigated: bool,
    /// A translation of the selection is shown instead of a composition.
    pub translating: bool,
}

impl Host {
    pub fn new(english_mode: bool, mac_caps_lock_switch: bool) -> (r: Host)
        ensures
            r.english_mode == english_mode,
            r.mac_caps_lock_switch == mac_caps_lock_switch,
            r.mode == ModeState::default_spec(),
            r.learn_phrase.cleared(),
            r.learn_phrase.status@.len() == 0 && !r.learn_phrase.status_is_error,
            !r.model_loading,
            r.rescore == RescoreMonitor::new_spec(),
            r.page == 0 && !r.navigated && !r.translating,
    {
        Host {
            english_mode,
            mac_caps_lock_switch,
            mode: ModeState { english: false, caps: false },
            learn_phrase: LearnPhraseForm::new(),
            model_loading: false,
            rescore: RescoreMonitor::new(),
            page: 0,
            navigated: false,
            translating: false,
        }
    }

    pub open spec fn caps_switches_spec(self) -> bool {
        self.english_mode && self.mac_caps_lock_switch
    }

    /// Caps Lock takes part in switching: not when the built-in English mode is off, nor
    /// when `mac_caps_lock_switch` is off; then it only locks the case.
    pub fn caps_lock_switches_mode(&self) -> (r: bool)
        ensures
            r == self.caps_switches_spec(),
    {
        self.english_mode && self.mac_caps_lock_switch
    }

    pub open spec fn synced(self, caps: bool) -> (Host, bool) {
        if !self.english_mode {
            (Host { mode: ModeState { english: false, caps }, ..self }, false)
        } else {
            let mode = if caps == self.mode.caps {
                self.mode
            } else if self.mac_caps_lock_switch {
                ModeState { english: caps, caps }
            } else {
                ModeState { caps, ..self.mode }
            };
            (Host { mode, ..self }, mode.english)
        }
    }

    /// Updates the mode from a read of Caps Lock and returns whether the mode is English.
    /// With the built-in English mode off it is always Chinese.
    pub fn sync_mode(&mut self, caps: bool) -> (english: bool)
        ensures
            (*final(self), english) == old(self).synced(caps),
    {
        if !self.english_mode {
            self.mode.sync_caps(caps, false);
            self.mode.set_english(false);
            return false;
        }
        self.mode.sync_caps(caps, self.mac_caps_lock_switch);
        self.mode.english()
    }

    /// The same as [`Self::sync_mode`] with a fresh read of the physical Caps Lock:
    /// text, punctuation and the menu bar all go through here, so they see one value.
    pub fn refresh_mode(&mut self, caps_lock_on: bool) -> (english: bool)
        ensures
            (*final(self), english) == old(self).synced(caps_lock_on),
    {
        self.sync_mode(caps_lock_on)
    }

    pub open spec fn switch_target_spec(self, action: MacSwitchAction) -> Option<bool> {
        let english = match action {
            MacSwitchAction::Toggle => !self.mode.english,
            MacSwitchAction::English => true,
            MacSwitchAction::Chinese => false,
        };
        if english && !self.english_mode {
            None
        } else if self.mode.english == english {
            None
        } else {
            Some(english)
        }
    }

    /// A switch key fired: the mode it goes to, when that is a change (never English
    /// while the built-in English mode is off). The front end then commits the typed
    /// letters, tells the engine, and updates the menu bar and the badge.
    pub fn switch_mode(&mut self, action: MacSwitchAction) -> (r: Option<bool>)
        ensures
            r == old(self).switch_target_spec(action),
            r matches Some(english) ==> *final(self) == (Host {
                mode: ModeState { english, ..old(self).mode },
                ..*old(self)
            }),
            r is None ==> *final(self) == *old(self),
    {
        let english = match action {
            MacSwitchAction::Toggle => !self.mode.english(),
            MacSwitchAction::English => true,
            MacSwitchAction::Chinese => false,
        };
        if english && !self.english_mode {
            return None;
        }
        if self.mode.set_english(english) {
            Some(english)
        } else {
            None
        }
    }

    /// The phrase box changed: an emptied phrase releases the pinyin box; while the user
    /// has not edited the pinyin, the phrase to look up (the caller asks the dictionary
    /// and passes the answer to [`Self::learn_phrase_suggested`]).
    pub fn learn_phrase_phrase_changed(&mut self) -> (lookup: Option<String>)
        ensures
            final(self).learn_phrase.dirty == (old(self).learn_phrase.dirty && trimmed(
                old(self).learn_phrase.phrase@,
            ).len() != 0),
            final(self).learn_phrase.dirty ==> lookup is None,
            !final(self).learn_phrase.dirty ==> lookup == Some(old(self).learn_phrase.phrase),
            *final(self) == (Host {
                learn_phrase: LearnPhraseForm {
                    dirty: final(self).learn_phrase.dirty,
                    ..old(self).learn_phrase
                },
                ..*old(self)
            }),
    {
        self.learn_phrase.clear_dirty_if_phrase_empty();
        if self.learn_phrase.pinyin_dirty() {
            return None;
        }
        Some(self.learn_phrase.phrase_text())
    }

    /// The dictionary's reading of the phrase goes into the pinyin box (empty when it
    /// has none).
    pub fn learn_phrase_suggested(&mut self, syllables: Option<Vec<String>>)
        ensures
            final(self).learn_phrase.pinyin@ == match syllables {
                Some(parts) => joined(views(parts@), " "@),
                None => seq![],
            },
            *final(self) == (Host {
                learn_phrase: LearnPhraseForm {
                    pinyin: final(self).learn_phrase.pinyin,
                    updating: false,
                    ..old(self).learn_phrase
                },
                ..*old(self)
            }),
    {
        match &syllables {
            Some(parts) => self.learn_phrase.set_pinyin(Some(parts)),
            None => self.learn_phrase.set_pinyin(None),
        }
    }

    /// The user edited the pinyin: lookups stop overwriting it.
    pub fn learn_phrase_pinyin_changed(&mut self)
        ensures
            *final(self) == (Host {
                learn_phrase: LearnPhraseForm {
                    dirty: old(self).learn_phrase.dirty || !old(self).learn_phrase.updating,
                    ..old(self).learn_phrase
                },
                ..*old(self)
            }),
    {
        self.learn_phrase.mark_pinyin_dirty();
    }

    /// "Record": the phrase and pinyin to check and record.
    pub fn confirm_learn_phrase(&self) -> (r: (String, String))
        ensures
            r == (self.learn_phrase.phrase, self.learn_phrase.pinyin),
    {
        (self.learn_phrase.phrase_text(), self.learn_phrase.pinyin_text())
    }

    /// The engine's answer to "record". An error goes to the status line; success clears
    /// the form, names the recorded (trimmed) phrase, and returns whether the shown
    /// composition is to be requeried so the new word appears at once.
    pub fn learn_phrase_confirmed(&mut self, composing: bool, result: Result<(), LearnPhraseError>) -> (requery: bool)
        ensures
            match result {
                Err(error) => !requery && final(self).learn_phrase.status@
                    == phrase_error_text_spec(error) && final(self).learn_phrase.status_is_error
                    && final(self).learn_phrase == (LearnPhraseForm {
                    status: final(self).learn_phrase.status,
                    status_is_error: true,
                    ..old(self).learn_phrase
                }),
                Ok(()) => requery == (composing && !old(self).translating)
                    && final(self).learn_phrase.cleared() && final(self).learn_phrase.status@
                    == "已录入「"@ + trimmed(old(self).learn_phrase.phrase@) + "」"@,
            },
            *final(self) == (Host { learn_phrase: final(self).learn_phrase, ..*old(self) }),
    {
        match result {
            Err(error) => {
                self.learn_phrase.set_error(phrase_error_text(error));
                false
            },
            Ok(()) => {
                let learned = trim(self.learn_phrase.phrase.as_str());
                self.learn_phrase.clear_after_success(&learned);
                composing && !self.translating
            },
        }
    }

    /// Whether the model is still loading.
    pub fn model_loading(&self) -> (r: bool)
        ensures
            r == self.model_loading,
    {
        self.model_loading
    }

    /// Loading is to start unless it runs already, a scorer is attached, or there is no
    /// model file. Returns whether the caller starts the loading thread.
    pub fn load_local_model(&self, has_scorer: bool, has_model_file: bool) -> (start: bool)
        ensures
            start == (!self.model_loading && !has_scorer && has_model_file),
    {
        !self.model_loading && !has_scorer && has_model_file
    }

    /// The loading thread runs: watch for its result.
    pub fn model_load_started(&mut self)
        ensures
            *final(self) == (Host {
                model_loading: true,
                rescore: RescoreMonitor { loading: true, ..old(self).rescore },
                ..*old(self)
            }),
    {
        self.model_loading = true;
        self.rescore.watch_loading();
    }

    /// A look at the loading thread (on each query and on the loading timer). Returns
    /// whether the model is to be attached now; any result other than "still loading"
    /// ends the watching.
    pub fn attach_loaded_model(&mut self, poll: LoadPoll) -> (attach: bool)
        ensures
            !old(self).model_loading ==> !attach && *final(self) == (Host {
                rescore: RescoreMonitor { loading: false, ..old(self).rescore },
                ..*old(self)
            }),
            old(self).model_loading && poll == LoadPoll::Pending ==> !attach && *final(self)
                == *old(self),
            old(self).model_loading && poll != LoadPoll::Pending ==> attach == (poll
                == LoadPoll::Loaded) && *final(self) == (Host {
                model_loading: false,
                rescore: RescoreMonitor { loading: false, ..old(self).rescore },
                ..*old(self)
            }),
    {
        if !self.model_loading {
            self.rescore.stop_watching();
            return false;
        }
        match poll {
            LoadPoll::Pending => false,
            LoadPoll::Loaded => {
                self.model_loading = false;
                self.rescore.stop_watching();
                true
            },
            LoadPoll::Failed | LoadPoll::Gone => {
                self.model_loading = false;
                self.rescore.stop_watching();
                false
            },
        }
    }

    /// The model came up while the user is composing: this round's query never saw the
    /// scorer, so it is run once more (without redrawing) unless a translation is shown
    /// or the user paged or moved.
    pub fn rescore_current_round(&self, composing: bool) -> (requery: bool)
        ensures
            requery == (composing && !self.translating && self.page == 0 && !self.navigated),
    {
        composing && !self.translating && self.page == 0 && !self.navigated
    }

    /// The configuration turned the model off.
    pub fn unload_local_model(&mut self)
        ensures
            *final(self) == (Host {
                model_loading: false,
                rescore: RescoreMonitor {
                    loading: false,
                    debounce: false,
                    polling: false,
                    since: None,
                    ..old(self).rescore
                },
                ..*old(self)
            }),
    {
        self.model_loading = false;
        self.rescore.stop_watching();
        self.rescore.stop();
    }

    /// After a query: when sentence paths wait for scores, the debounce starts over.
    pub fn schedule_rescoring(&mut self, rescoring_pending: bool)
        ensures
            rescoring_pending ==> *final(self) == (Host {
                rescore: RescoreMonitor { debounce: true, ..old(self).rescore },
                ..*old(self)
            }),
            !rescoring_pending ==> *final(self) == *old(self),
    {
        if rescoring_pending {
            self.rescore.schedule();
        }
    }

    /// The debounce fired: outside a composition the timers stop; otherwise the caller
    /// sends the waiting paths for scoring (`true`) and reports with
    /// [`Self::rescoring_requested`].
    pub fn start_rescoring(&mut self, composing: bool) -> (request: bool)
        ensures
            request == composing,
            composing ==> *final(self) == *old(self),
            !composing ==> *final(self) == (Host {
                rescore: RescoreMonitor {
                    debounce: false,
                    polling: false,
                    since: None,
                    ..old(self).rescore
                },
                ..*old(self)
            }),
    {
        if !composing {
            self.rescore.stop();
            return false;
        }
        true
    }

    /// The request for scores went out at `now` (`accepted`): start polling.
    pub fn rescoring_requested(&mut self, accepted: bool, now: u64)
        ensures
            accepted ==> *final(self) == (Host {
                rescore: RescoreMonitor { polling: true, since: Some(now), ..old(self).rescore },
                ..*old(self)
            }),
            !accepted ==> *final(self) == *old(self),
    {
        if accepted {
            self.rescore.start_polling(now);
        }
    }

    /// The poll timer fired at `now`; `ready` says the scores arrived. When nothing is
    /// composed or a translation is shown, `ready` is not read (the caller need not ask
    /// the engine then) and the timers stop. On `Redraw` the caller requeries and draws
    /// [`rescored_layout`] once.
    pub fn poll_rescoring(&mut self, composing: bool, ready: bool, now: u64) -> (r: PollOutcome)
        ensures
            ({
                let stopped = Host {
                    rescore: RescoreMonitor {
                        debounce: false,
                        polling: false,
                        since: None,
                        ..old(self).rescore
                    },
                    ..*old(self)
                };
                if !composing || old(self).translating {
                    r == PollOutcome::Stopped && *final(self) == stopped
                } else if !ready {
                    if old(self).rescore.expired_spec(now) {
                        r == PollOutcome::Expired && *final(self) == stopped
                    } else {
                        r == PollOutcome::Waiting && *final(self) == *old(self)
                    }
                } else {
                    *final(self) == stopped && r == (if old(self).page != 0 || old(self).navigated {
                        PollOutcome::Kept
                    } else {
                        PollOutcome::Redraw
                    })
                }
            }),
    {
        if !composing || self.translating {
            self.rescore.stop();
            return PollOutcome::Stopped;
        }
        if !ready {
            if self.rescore.expired(now) {
                self.rescore.stop();
                return PollOutcome::Expired;
            }
            return PollOutcome::Waiting;
        }
        self.rescore.stop();
        if self.page != 0 || self.navigated {
            return PollOutcome::Kept;
        }
        PollOutcome::Redraw
    }

    /// Choosing the rescoring source. The decision model, when enabled and its client
    /// could be built (`decision_timeout_ms` is its request timeout), waits that long
    /// plus a second; otherwise the default wait applies and the local model loads when
    /// it is enabled. Any previous model is unloaded first. Returns whether the local
    /// model is to be loaded.
    pub fn apply_rescorer(&mut self, decision_timeout_ms: Option<u64>, model_enabled: bool) -> (load_local: bool)
        ensures
            final(self).rescore.max_wait == match decision_timeout_ms {
                Some(t) => if t <= u64::MAX - 1000 {
                    (t + 1000) as u64
                } else {
                    u64::MAX
                },
                None => DEFAULT_MAX_WAIT_MS,
            },
            load_local == (decision_timeout_ms is None && model_enabled),
            *final(self) == (Host {
                model_loading: false,
                rescore: RescoreMonitor {
                    loading: false,
                    debounce: false,
                    polling: false,
                    since: None,
                    max_wait: final(self).rescore.max_wait,
                },
                ..*old(self)
            }),
    {
        self.unload_local_model();
        match decision_timeout_ms {
            Some(t) => {
                let wait = if t <= u64::MAX - 1000 {
                    t + 1000
                } else {
                    u64::MAX
                };
                self.rescore.set_max_wait(wait);
                false
            },
            None => {
                self.rescore.set_max_wait(DEFAULT_MAX_WAIT_MS);
                model_enabled
            },
        }
    }
}

/// The cells after a rescore: the requeried cells, with the cloud words that were shown
/// put into the empty ones.
pub open spec fn rescored_cells(shown: Seq<Option<Candidate>>, fresh: Seq<Option<Candidate>>) -> Seq<
    Option<Candidate>,
> {
    if cloud_words(shown).len() == 0 {
        fresh
    } else {
        filled(fresh, cloud_words(shown))
    }
}

/// The candidates after the scores arrived (a [`PollOutcome::Redraw`]): the requeried
/// layout `fresh` (which starts on its first page, nothing navigated), with the cloud
/// words that were shown put back into its empty cells. The caller draws it once.
pub fn rescored_layout(shown: &CandidateLayout, fresh: CandidateLayout) -> (r: CandidateLayout)
    ensures
        r.page_size == fresh.page_size,
        r.cells@ == rescored_cells(shown.cells@, fresh.cells@),
{
    let cloud = shown.cloud();
    let mut layout = fresh;
    if cloud.len() > 0 {
        layout.set_cloud(cloud);
    }
    layout
}

/// The cloud words shown before a rescore are the cloud words shown after it, when the
/// requeried layout has none of its own and enough empty cells for them.
pub proof fn law_rescore_keeps_cloud_words(shown: Seq<Option<Candidate>>, fresh: Seq<Option<Candidate>>)
    requires
        forall|k: int|
            0 <= k < fresh.len() ==> !(#[trigger] fresh[k] matches Some(c) && c.kind
                == CandidateKind::Cloud),
        empty_count(fresh) >= cloud_words(shown).len(),
    ensures
        cloud_words(rescored_cells(shown, fresh)) == cloud_words(shown),
{
    lemma_cloud_words_are_cloud(shown);
    law_cloud_words_come_back(fresh, cloud_words(shown));
    if cloud_words(shown).len() == 0 {
        lemma_filled_nothing(fresh);
    }
}

proof fn lemma_filled_nothing(cells: Seq<Option<Candidate>>)
    ensures
        filled(cells, seq![]) == cells,
    decreases cells.len(),
{
    if cells.len() > 0 {
        lemma_filled_nothing(cells.drop_first());
        assert(cells == seq![cells[0]] + cells.drop_first());
    }
}

impl ModeState {
    pub open spec fn default_spec() -> ModeState {
        ModeState { english: false, caps: false }
    }
}

impl RescoreMonitor {
    pub open spec fn new_spec() -> RescoreMonitor {
        RescoreMonitor {
            loading: false,
            debounce: false,
            polling: false,
            since: None,
            max_wait: DEFAULT_MAX_WAIT_MS,
        }
    }
}

/// With the built-in English mode off the mode is never English: neither a read of Caps
/// Lock nor a switch key gets there.
pub proof fn law_host_chinese_when_english_off(h: Host, caps: bool, action: MacSwitchAction)
    requires
        !h.english_mode,
    ensures
        !h.synced(caps).0.mode.english,
        !h.synced(caps).1,
        h.switch_target_spec(action) != Some(true),
{
}

/// When Caps Lock takes part in switching, a flip of it leaves the mode English exactly
/// when it is lit.
pub proof fn law_host_caps_lock_drives_mode(h: Host, caps: bool)
    requires
        h.caps_switches_spec(),
        caps != h.mode.caps,
    ensures
        h.synced(caps).1 == caps,
        h.synced(caps).0.mode.english == caps,
{
}

/// The toggle key pressed twice goes back to the mode it started from.
pub proof fn law_host_toggle_twice(h: Host)
    requires
        h.mode.english ==> h.english_mode,
    ensures
        ({
            let first = h.switch_target_spec(MacSwitchAction::Toggle);
            &&& h.english_mode || h.mode.english ==> first == Some(!h.mode.english)
            &&& first matches Some(e) ==> (Host {
                mode: ModeState { english: e, ..h.mode },
                ..h
            }).switch_target_spec(MacSwitchAction::Toggle) == Some(h.mode.english)
        }),
{
}

/// A read of Caps Lock that equals the last one seen leaves the mode as it was, whatever
/// `mac_caps_lock_switch` says (with the built-in English mode on); only a flip, with
/// Caps Lock taking part, sets English to the lit state.
pub proof fn law_host_unflipped_caps_keeps_mode(h: Host, caps: bool)
    requires
        h.english_mode,
    ensures
        caps == h.mode.caps ==> h.synced(caps).0.mode == h.mode && h.synced(caps).1
            == h.mode.english,
        caps != h.mode.caps && !h.mac_caps_lock_switch ==> h.synced(caps).0.mode.english
            == h.mode.english,
{
}

/// A switch key's change of mode survives the next read of an unchanged Caps Lock.
pub proof fn law_host_switch_survives_caps_read(h: Host, action: MacSwitchAction)
    requires
        h.english_mode,
        h.switch_target_spec(action) is Some,
    ensures
        ({
            let english = h.switch_target_spec(action)->0;
            let switched = Host { mode: ModeState { english, ..h.mode }, ..h };
            switched.synced(h.mode.caps).1 == english
        }),
{
}

} // verus!
