//! The text service's Chinese / English mode. The mode is global and kept by the input
//! server: a switch made here is reported to it; activation, focus and the periodic
//! poll take it from there. The taskbar shows the mode through the conversion-mode
//! compartment (only its `NATIVE` bit is ours) and the keyboard open / close
//! compartment (open = Chinese), and a click there comes back as a compartment change.

use vstd::prelude::*;

use super::tap::SwitchKeys;

verus! {

/// `TF_CONVERSIONMODE_NATIVE`: lit is Chinese.
pub const NATIVE: i32 = 1;

/// How long after activation a write-back of the conversion mode is ignored, in
/// milliseconds: the system restores the profile's mode shortly after activation, and
/// that is no user action.
pub const CONVERSION_RESTORE_GUARD_MS: u64 = 1200;

/// The conversion mode read from the compartment; unset or unreadable counts as
/// Chinese.
pub open spec fn read_mode(value: Option<i32>) -> i32 {
    match value {
        Some(v) => v,
        None => NATIVE,
    }
}

pub open spec fn is_english_spec(value: Option<i32>) -> bool {
    read_mode(value) & NATIVE == 0
}

/// The conversion mode says English: `NATIVE` is not lit.
pub fn is_english(value: Option<i32>) -> (r: bool)
    ensures
        r == is_english_spec(value),
{
    let mode = match value {
        Some(v) => v,
        None => NATIVE,
    };
    mode & NATIVE == 0
}

pub open spec fn is_keyboard_open_spec(value: Option<i32>) -> bool {
    match value {
        Some(v) => v != 0,
        None => true,
    }
}

/// The keyboard compartment is open (0 is closed; unset counts as open).
pub fn is_keyboard_open(value: Option<i32>) -> (r: bool)
    ensures
        r == is_keyboard_open_spec(value),
{
    match value {
        Some(v) => v != 0,
        None => true,
    }
}

pub open spec fn conversion_mode_for(value: Option<i32>, english: bool) -> i32 {
    if english {
        read_mode(value) & !NATIVE
    } else {
        read_mode(value) | NATIVE
    }
}

pub open spec fn keyboard_write_for(value: Option<i32>, open: bool) -> Option<i32> {
    if is_keyboard_open_spec(value) == open {
        None
    } else if open {
        Some(1i32)
    } else {
        Some(0i32)
    }
}

/// The conversion mode to write for a mode: only the `NATIVE` bit changes.
pub fn next_conversion_mode(value: Option<i32>, english: bool) -> (r: i32)
    ensures
        r == conversion_mode_for(value, english),
{
    let current = match value {
        Some(v) => v,
        None => NATIVE,
    };
    if english {
        current & !NATIVE
    } else {
        current | NATIVE
    }
}

/// The keyboard compartment value to write, when it differs: open for Chinese.
pub fn keyboard_open_write(value: Option<i32>, open: bool) -> (r: Option<i32>)
    ensures
        r == keyboard_write_for(value, open),
{
    if is_keyboard_open(value) == open {
        None
    } else if open {
        Some(1)
    } else {
        Some(0)
    }
}

/// Writing the conversion mode for a mode and reading it back gives that mode, and
/// every other bit stays as it was.
pub proof fn law_conversion_mode_round_trip(value: Option<i32>, english: bool)
    ensures
        is_english_spec(Some(conversion_mode_for(value, english))) == english,
        conversion_mode_for(value, english) & !NATIVE == read_mode(value) & !NATIVE,
{
    let current = read_mode(value);
    assert(current & !1i32 & 1i32 == 0 && (current | 1i32) & 1i32 != 0) by (bit_vector);
    assert((current & !1i32) & !1i32 == current & !1i32 && (current | 1i32) & !1i32 == current
        & !1i32) by (bit_vector);
}

/// Writing the keyboard compartment when it differs (and leaving it otherwise) leaves it
/// open exactly when Chinese was asked for.
pub proof fn law_keyboard_open_round_trip(value: Option<i32>, open: bool)
    ensures
        is_keyboard_open_spec(
            match keyboard_write_for(value, open) {
                Some(w) => Some(w),
                None => value,
            },
        ) == open,
{
}

/// The key behaviour the server sends down.
#[derive(Debug, Clone, Copy, PartialEq, Eq, Structural)]
pub struct InputSettings {
    pub switch_mode: SwitchKeys,
    pub english_mode: bool,
    pub shift_letter_compose: bool,
}

impl InputSettings {
    /// What applies before the server answered: Shift switches, English mode available.
    pub fn defaults() -> (r: InputSettings)
        ensures
            r == Self::defaults_spec(),
    {
        InputSettings {
            switch_mode: SwitchKeys { shift: true, control: false, ctrl_alt_space: false },
            english_mode: true,
            shift_letter_compose: false,
        }
    }

    pub open spec fn defaults_spec() -> InputSettings {
        InputSettings {
            switch_mode: SwitchKeys { shift: true, control: false, ctrl_alt_space: false },
            english_mode: true,
            shift_letter_compose: false,
        }
    }
}

/// Work for the text service to do, in order.
#[derive(Debug, Clone, Copy, PartialEq, Eq, Structural)]
pub enum TsfAction {
    /// Commit what is being composed as it is.
    CommitPending,
    /// Rewrite the language bar button, the conversion mode and the keyboard compartment.
    RefreshIndicator,
    /// Ask the language bar to redraw the button only.
    NotifyLangBar,
    /// Tell the server the mode.
    ReportMode,
    AddLangBarItem,
    RemoveLangBarItem,
    AdviseModeSinks,
    UnadviseModeSinks,
    /// Register Ctrl + Alt + Space; report with [`ModeService::switch_key_registered`].
    RegisterSwitchKey,
    UnregisterSwitchKey,
    /// Connect to the server if not connected.
    EnsureConnected,
    /// Take the mode from the server.
    SyncFromServer,
    /// Drop the connection; the next key reconnects.
    Disconnect,
    /// Cancel a pending switch-key tap.
    CancelTap,
}

/// The server's answer to a mode request.
#[derive(Debug, Clone, Copy, PartialEq, Eq, Structural)]
pub struct ModeSync {
    pub input: InputSettings,
    /// The global mode; `None` before any front end reported one.
    pub english: Option<bool>,
}

/// The text service's mode state.
#[derive(Debug, Clone, Copy, PartialEq, Eq, Structural)]
pub struct ModeService {
    /// The mode is English.
    pub english: bool,
    /// The built-in English mode is available: switching to English is refused when not.
    pub enabled: bool,
    pub switch_keys: SwitchKeys,
    /// Activation has finished.
    pub active: bool,
    /// The settings last applied.
    pub input_settings: Option<InputSettings>,
    /// Ctrl + Alt + Space is registered.
    pub switch_preserved: bool,
    /// This thread has the keyboard focus.
    pub foreground: bool,
    /// Until when (milliseconds) a conversion-mode change is ignored.
    pub guard_until: Option<u64>,
}

impl ModeService {
    /// English only while the built-in English mode is available: every operation
    /// keeps this.
    pub open spec fn english_allowed(self) -> bool {
        self.english ==> self.enabled
    }

    /// The state after applying the two mode settings.
    pub open spec fn with_mode_settings(self, english_mode: bool, switch_keys: SwitchKeys) -> ModeService {
        ModeService {
            enabled: english_mode,
            switch_keys,
            english: self.english && english_mode,
            switch_preserved: self.switch_preserved && switch_keys.ctrl_alt_space,
            ..self
        }
    }

    /// The work that applying the two mode settings asks for.
    pub open spec fn mode_settings_actions(self, english_mode: bool, switch_keys: SwitchKeys) -> Seq<
        TsfAction,
    > {
        (if !english_mode && self.english {
            seq![TsfAction::RefreshIndicator]
        } else {
            seq![]
        }) + (if self.enabled != english_mode && self.active {
            if english_mode {
                seq![TsfAction::AddLangBarItem, TsfAction::AdviseModeSinks]
            } else {
                seq![TsfAction::UnadviseModeSinks, TsfAction::RemoveLangBarItem]
            }
        } else {
            seq![]
        }) + (if switch_keys.ctrl_alt_space != self.switch_preserved {
            if switch_keys.ctrl_alt_space {
                seq![TsfAction::RegisterSwitchKey]
            } else {
                seq![TsfAction::UnregisterSwitchKey]
            }
        } else {
            seq![]
        })
    }

    /// The state after the server's key settings, and the work they ask for: nothing
    /// when they are the ones applied last.
    pub open spec fn with_input_settings(self, input: InputSettings) -> (ModeService, Seq<TsfAction>) {
        if self.input_settings == Some(input) {
            (self, seq![])
        } else {
            let s = ModeService { input_settings: Some(input), ..self };
            (
                s.with_mode_settings(input.english_mode, input.switch_mode),
                s.mode_settings_actions(input.english_mode, input.switch_mode),
            )
        }
    }

    /// The state after following the server's mode, and the work it asks for: nothing
    /// when the mode is the same or the built-in English mode is off.
    pub open spec fn adopted(self, english: bool) -> (ModeService, Seq<TsfAction>) {
        if english != self.english && self.enabled {
            (
                ModeService { english, ..self },
                seq![TsfAction::CommitPending, TsfAction::RefreshIndicator],
            )
        } else {
            (self, seq![])
        }
    }

    /// The state after the server's answer to a mode request, and the work it asks for.
    pub open spec fn synced_from_server(self, reply: Option<Result<ModeSync, ()>>) -> (
        ModeService,
        Seq<TsfAction>,
    ) {
        match reply {
            None => (self, seq![]),
            Some(Err(())) => (self, seq![TsfAction::Disconnect]),
            Some(Ok(sync)) => {
                let (settled, first) = self.with_input_settings(sync.input);
                match sync.english {
                    Some(english) => {
                        let (followed, second) = settled.adopted(english);
                        (followed, first + second)
                    },
                    None => (settled, first),
                }
            },
        }
    }

    /// The state at the end of activation at `now`, and the work it asks for.
    pub open spec fn activated(self, now: u64, connected: bool, focused: bool) -> (
        ModeService,
        Seq<TsfAction>,
    ) {
        let (settled, first) = if connected {
            (self, seq![])
        } else {
            self.with_input_settings(InputSettings::defaults_spec())
        };
        let guard = if now <= u64::MAX - CONVERSION_RESTORE_GUARD_MS {
            (now + CONVERSION_RESTORE_GUARD_MS) as u64
        } else {
            u64::MAX
        };
        (
            ModeService {
                guard_until: Some(guard),
                english: false,
                foreground: settled.foreground || focused,
                active: true,
                ..settled
            },
            first + seq![TsfAction::SyncFromServer, TsfAction::RefreshIndicator] + if settled.enabled {
                seq![TsfAction::AddLangBarItem, TsfAction::AdviseModeSinks]
            } else {
                seq![]
            },
        )
    }

    pub fn new() -> (r: ModeService)
        ensures
            !r.english && r.enabled && !r.active && r.input_settings is None
                && !r.switch_preserved && !r.foreground && r.guard_until is None,
            r.switch_keys == (SwitchKeys { shift: false, control: false, ctrl_alt_space: false }),
    {
        ModeService {
            english: false,
            enabled: true,
            switch_keys: SwitchKeys { shift: false, control: false, ctrl_alt_space: false },
            active: false,
            input_settings: None,
            switch_preserved: false,
            foreground: false,
            guard_until: None,
        }
    }

    /// Both ways of switching end here: refused while the built-in English mode is off
    /// (whatever the target, so English can never be entered); otherwise the
    /// composition is committed first. Returns whether the mode was set.
    pub fn switch_mode(&mut self, english: bool, out: &mut Vec<TsfAction>) -> (set: bool)
        ensures
            old(self).english_allowed() ==> final(self).english_allowed(),
            set == old(self).enabled,
            set ==> *final(self) == (ModeService { english, ..*old(self) }) && final(out)@
                == old(out)@.push(TsfAction::CommitPending),
            !set ==> *final(self) == *old(self) && final(out)@ == old(out)@,
    {
        if !self.enabled {
            return false;
        }
        out.push(TsfAction::CommitPending);
        self.english = english;
        true
    }

    /// The user switched in this application: set, redraw the indicator, report.
    pub fn set_english_mode(&mut self, english: bool) -> (out: Vec<TsfAction>)
        ensures
            old(self).english_allowed() ==> final(self).english_allowed(),
            old(self).enabled ==> *final(self) == (ModeService { english, ..*old(self) })
                && out@ == seq![
                TsfAction::CommitPending,
                TsfAction::RefreshIndicator,
                TsfAction::ReportMode,
            ],
            !old(self).enabled ==> *final(self) == *old(self) && out@.len() == 0,
    {
        let mut out = Vec::new();
        if self.switch_mode(english, &mut out) {
            out.push(TsfAction::RefreshIndicator);
            out.push(TsfAction::ReportMode);
        }
        out
    }

    /// The server's global mode differs (another application switched, the status bar
    /// was clicked): follow it without reporting back.
    pub fn adopt_mode(&mut self, english: bool, out: &mut Vec<TsfAction>)
        ensures
            old(self).english_allowed() ==> final(self).english_allowed(),
            *final(self) == old(self).adopted(english).0,
            final(out)@ == old(out)@ + old(self).adopted(english).1,
    {
        if english != self.english && self.switch_mode(english, out) {
            out.push(TsfAction::RefreshIndicator);
        }
    }

    /// The taskbar or the system hotkey switched: only the button is redrawn (writing
    /// the compartment from its own change callback fails), and the server is told.
    pub fn follow_system_mode(&mut self, english: bool, out: &mut Vec<TsfAction>)
        ensures
            old(self).english_allowed() ==> final(self).english_allowed(),
            old(self).enabled ==> *final(self) == (ModeService { english, ..*old(self) })
                && final(out)@ == old(out)@ + seq![
                TsfAction::CommitPending,
                TsfAction::NotifyLangBar,
                TsfAction::ReportMode,
            ],
            !old(self).enabled ==> *final(self) == *old(self) && final(out)@ == old(out)@,
    {
        if self.switch_mode(english, out) {
            out.push(TsfAction::NotifyLangBar);
            out.push(TsfAction::ReportMode);
        }
    }

    /// Applies the two mode settings (at activation and when the configuration
    /// changes). Turning the English mode off goes back to Chinese at once; a change of
    /// the setting after activation adds or removes the language bar button and the
    /// compartment callbacks; Ctrl + Alt + Space is registered only while checked.
    #[verifier::rlimit(40)]
    pub fn apply_mode_settings(&mut self, english_mode: bool, switch_keys: SwitchKeys, out: &mut Vec<TsfAction>)
        ensures
            old(self).english_allowed() ==> final(self).english_allowed(),
            *final(self) == old(self).with_mode_settings(english_mode, switch_keys),
            final(out)@ == old(out)@ + old(self).mode_settings_actions(english_mode, switch_keys),
    {
        let ghost start = out@;
        let was_enabled = self.enabled;
        self.enabled = english_mode;
        self.switch_keys = switch_keys;
        if !english_mode && self.english {
            self.english = false;
            out.push(TsfAction::RefreshIndicator);
        }
        let ghost first = out@;
        if was_enabled != english_mode && self.active {
            if english_mode {
                out.push(TsfAction::AddLangBarItem);
                out.push(TsfAction::AdviseModeSinks);
            } else {
                out.push(TsfAction::UnadviseModeSinks);
                out.push(TsfAction::RemoveLangBarItem);
            }
        }
        let ghost second = out@;
        let want = switch_keys.ctrl_alt_space;
        if want != self.switch_preserved {
            if want {
                out.push(TsfAction::RegisterSwitchKey);
            } else {
                out.push(TsfAction::UnregisterSwitchKey);
                self.switch_preserved = false;
            }
        }
        assert(out@ =~= start + (first.subrange(start.len() as int, first.len() as int)) + (
        second.subrange(first.len() as int, second.len() as int)) + out@.subrange(
            second.len() as int,
            out@.len() as int,
        ));
    }

    /// Ctrl + Alt + Space was registered (`ok`) or the registration failed.
    pub fn switch_key_registered(&mut self, ok: bool)
        ensures
            old(self).english_allowed() ==> final(self).english_allowed(),
            *final(self) == (ModeService { switch_preserved: old(self).switch_preserved || ok, ..*old(self) }),
    {
        if ok {
            self.switch_preserved = true;
        }
    }

    /// The server's key settings (with every answer to `OpenSession` and `SyncMode`):
    /// applied when they differ from the last ones.
    pub fn apply_input_settings(&mut self, input: InputSettings, out: &mut Vec<TsfAction>)
        ensures
            old(self).english_allowed() ==> final(self).english_allowed(),
            *final(self) == old(self).with_input_settings(input).0,
            final(out)@ == old(out)@ + old(self).with_input_settings(input).1,
    {
        if self.input_settings == Some(input) {
            return;
        }
        self.input_settings = Some(input);
        self.apply_mode_settings(input.english_mode, input.switch_mode, out);
    }

    /// The server answered a mode request (`Some(Ok)`), failed (`Some(Err)`: drop the
    /// connection), or there is no connection (`None`: nothing happens).
    pub fn sync_mode_from_server(&mut self, reply: Option<Result<ModeSync, ()>>) -> (out: Vec<TsfAction>)
        ensures
            old(self).english_allowed() ==> final(self).english_allowed(),
            (*final(self), out@) == old(self).synced_from_server(reply),
    {
        let mut out = Vec::new();
        match reply {
            Some(Ok(sync)) => {
                self.apply_input_settings(sync.input, &mut out);
                if let Some(english) = sync.english {
                    self.adopt_mode(english, &mut out);
                }
            },
            Some(Err(())) => {
                out.push(TsfAction::Disconnect);
            },
            None => {},
        }
        out
    }

    /// The thread gained or lost the keyboard focus. Gaining it: connect and take the
    /// global mode (another application may just have switched).
    pub fn set_thread_focus(&mut self, foreground: bool) -> (out: Vec<TsfAction>)
        ensures
            old(self).english_allowed() ==> final(self).english_allowed(),
            *final(self) == (ModeService { foreground, ..*old(self) }),
            old(self).foreground == foreground ==> out@.len() == 0,
            old(self).foreground != foreground && foreground ==> out@ == seq![
                TsfAction::EnsureConnected,
                TsfAction::SyncFromServer,
            ],
            old(self).foreground != foreground && !foreground ==> out@.len() == 0,
    {
        let mut out = Vec::new();
        if self.foreground == foreground {
            return out;
        }
        self.foreground = foreground;
        if foreground {
            out.push(TsfAction::EnsureConnected);
            out.push(TsfAction::SyncFromServer);
        }
        out
    }

    /// The conversion mode changed at `now` (the taskbar was clicked): follow it when it
    /// differs — except shortly after activation, when it is the system restoring the
    /// profile's mode.
    pub fn sync_from_conversion_mode(&mut self, now: u64, value: Option<i32>) -> (out: Vec<TsfAction>)
        ensures
            old(self).english_allowed() ==> final(self).english_allowed(),
            (old(self).guard_until matches Some(until) && now < until) || is_english_spec(value)
                == old(self).english ==> *final(self) == *old(self) && out@.len() == 0,
            !(old(self).guard_until matches Some(until) && now < until) && is_english_spec(value)
                != old(self).english ==> (old(self).enabled ==> *final(self) == (ModeService {
                english: is_english_spec(value),
                ..*old(self)
            }) && out@ == seq![
                TsfAction::CommitPending,
                TsfAction::NotifyLangBar,
                TsfAction::ReportMode,
            ]) && (!old(self).enabled ==> *final(self) == *old(self) && out@.len() == 0),
    {
        let mut out = Vec::new();
        if let Some(until) = self.guard_until {
            if now < until {
                return out;
            }
        }
        let english = is_english(value);
        if english != self.english {
            self.follow_system_mode(english, &mut out);
        }
        out
    }

    /// The system's input method toggle flipped the keyboard compartment: closed is
    /// English, open is Chinese. The Ctrl of that hotkey is no tap.
    pub fn sync_from_keyboard_open(&mut self, value: Option<i32>) -> (out: Vec<TsfAction>)
        ensures
            old(self).english_allowed() ==> final(self).english_allowed(),
            out@.len() >= 1 && out@[0] == TsfAction::CancelTap,
            !is_keyboard_open_spec(value) == old(self).english ==> *final(self) == *old(self)
                && out@ == seq![TsfAction::CancelTap],
            !is_keyboard_open_spec(value) != old(self).english && old(self).enabled ==> *final(self) == (ModeService {
                english: !is_keyboard_open_spec(value),
                ..*old(self)
            }) && out@ == seq![
                TsfAction::CancelTap,
                TsfAction::CommitPending,
                TsfAction::NotifyLangBar,
                TsfAction::ReportMode,
            ],
            !is_keyboard_open_spec(value) != old(self).english && !old(self).enabled ==> *final(self) == *old(self) && out@ == seq![TsfAction::CancelTap],
    {
        let mut out = Vec::new();
        out.push(TsfAction::CancelTap);
        let english = !is_keyboard_open(value);
        if english != self.english {
            self.follow_system_mode(english, &mut out);
        }
        out
    }

    /// The end of activation at `now`, after connecting (`connected`). Without a server
    /// the default settings apply (with one, its settings came with the connection).
    /// The mode starts in Chinese and follows the server; the system's restoring
    /// write-back is ignored for a while; the language bar button and the compartment
    /// callbacks exist only while the English mode is available.
    pub fn activate(&mut self, now: u64, connected: bool, focused: bool) -> (out: Vec<TsfAction>)
        ensures
            old(self).english_allowed() ==> final(self).english_allowed(),
            (*final(self), out@) == old(self).activated(now, connected, focused),
    {
        let mut out = Vec::new();
        if !connected {
            self.apply_input_settings(InputSettings::defaults(), &mut out);
        }
        self.guard_until = Some(
            if now <= u64::MAX - CONVERSION_RESTORE_GUARD_MS {
                now + CONVERSION_RESTORE_GUARD_MS
            } else {
                u64::MAX
            },
        );
        self.english = false;
        if focused {
            self.foreground = true;
        }
        out.push(TsfAction::SyncFromServer);
        out.push(TsfAction::RefreshIndicator);
        if self.enabled {
            out.push(TsfAction::AddLangBarItem);
            out.push(TsfAction::AdviseModeSinks);
        }
        self.active = true;
        out
    }

    /// Deactivation: callbacks and the button go, the composition is committed, the
    /// preserved key is unregistered.
    pub fn deactivate(&mut self) -> (out: Vec<TsfAction>)
        ensures
            old(self).english_allowed() ==> final(self).english_allowed(),
            *final(self) == (ModeService {
                active: false,
                switch_preserved: false,
                foreground: false,
                ..*old(self)
            }),
            out@ == seq![
                TsfAction::UnadviseModeSinks,
                TsfAction::RemoveLangBarItem,
                TsfAction::CommitPending,
            ] + (if old(self).switch_preserved {
                seq![TsfAction::UnregisterSwitchKey]
            } else {
                seq![]
            }),
    {
        let mut out = Vec::new();
        self.active = false;
        out.push(TsfAction::UnadviseModeSinks);
        out.push(TsfAction::RemoveLangBarItem);
        out.push(TsfAction::CommitPending);
        if self.switch_preserved {
            self.switch_preserved = false;
            out.push(TsfAction::UnregisterSwitchKey);
        }
        self.foreground = false;
        out
    }
}

/// Ctrl + Alt + Space is a preserved key after applying the mode settings only while it
/// is checked: unchecking it while registered asks to unregister it, checking it while
/// not registered asks to register it.
pub proof fn law_switch_key_preserved_only_while_checked(
    s: ModeService,
    english_mode: bool,
    switch_keys: SwitchKeys,
)
    ensures
        s.with_mode_settings(english_mode, switch_keys).switch_preserved ==> switch_keys.ctrl_alt_space,
        !switch_keys.ctrl_alt_space && s.switch_preserved ==> s.mode_settings_actions(
            english_mode,
            switch_keys,
        ).contains(TsfAction::UnregisterSwitchKey),
        switch_keys.ctrl_alt_space && !s.switch_preserved ==> s.mode_settings_actions(
            english_mode,
            switch_keys,
        ).contains(TsfAction::RegisterSwitchKey),
        !(switch_keys.ctrl_alt_space && !s.switch_preserved) ==> !s.mode_settings_actions(
            english_mode,
            switch_keys,
        ).contains(TsfAction::RegisterSwitchKey),
{
    let a = s.mode_settings_actions(english_mode, switch_keys);
    let first = if !english_mode && s.english {
        seq![TsfAction::RefreshIndicator]
    } else {
        seq![]
    };
    let second = if s.enabled != english_mode && s.active {
        if english_mode {
            seq![TsfAction::AddLangBarItem, TsfAction::AdviseModeSinks]
        } else {
            seq![TsfAction::UnadviseModeSinks, TsfAction::RemoveLangBarItem]
        }
    } else {
        seq![]
    };
    let third = if switch_keys.ctrl_alt_space != s.switch_preserved {
        if switch_keys.ctrl_alt_space {
            seq![TsfAction::RegisterSwitchKey]
        } else {
            seq![TsfAction::UnregisterSwitchKey]
        }
    } else {
        seq![]
    };
    assert(a == first + second + third);
    if third.len() > 0 {
        assert(a[(first.len() + second.len()) as int] == third[0]);
    }
    if !(switch_keys.ctrl_alt_space && !s.switch_preserved) {
        assert forall|k: int| 0 <= k < a.len() implies a[k] != TsfAction::RegisterSwitchKey by {
            if k < first.len() {
                assert(a[k] == first[k]);
            } else if k < first.len() + second.len() {
                assert(a[k] == second[k - first.len()]);
            } else {
                assert(a[k] == third[k - first.len() - second.len()]);
            }
        }
    }
}

} // verus!
