//! The global Chinese / English mode and the floating status bar. There is one mode for
//! every application: a front end reports a switch, or takes the mode when it activates;
//! a click on the status bar changes it directly. When the mode really changes, a badge
//! flashes beside the caret.

use vstd::prelude::*;

use super::{Router, RouterConfig};
use crate::layout::{duplicate_text, ScreenRect};

verus! {

/// What the status bar shows.
#[derive(Debug, Clone, PartialEq, Eq)]
pub struct StatusView {
    pub english: bool,
    pub zhuyin: bool,
    /// Name of the input scheme; `None` for plain pinyin.
    pub scheme: Option<String>,
    /// Punctuation of the current mode is full width.
    pub full_width: bool,
    /// Where the bar was dragged to.
    pub anchor: Option<(i32, i32)>,
}

/// The mode badge to flash.
#[derive(Debug, Clone, Copy, PartialEq, Eq, Structural)]
pub struct BadgeView {
    pub english: bool,
    /// The last caret rectangle; `None` places it by the mouse.
    pub anchor: Option<ScreenRect>,
}

/// A value written back to the configuration file.
#[derive(Debug, Clone, Copy, PartialEq, Eq, Structural)]
pub enum ConfigValue {
    Bool(bool),
    Int(i64),
}

/// Something the user interface is to do.
#[derive(Debug, Clone, PartialEq, Eq)]
pub enum StatusCommand {
    /// Show (or redraw) the status bar.
    Show(StatusView),
    /// Hide the status bar.
    Hide,
    /// Flash the mode badge.
    FlashBadge(BadgeView),
    /// Write one key of the configuration file.
    Persist { section: String, key: String, value: ConfigValue },
    /// Open the settings program.
    OpenSettings,
    /// Open the download page.
    OpenDownload,
    /// Build the reading table, then open the phrase window.
    OpenLearnPhrase,
}

/// A click on the status bar.
#[derive(Debug, Clone, Copy, PartialEq, Eq, Structural)]
pub enum StatusEvent {
    ToggleMode,
    TogglePunctuation,
    Moved(i32, i32),
}

/// An entry of the taskbar icon's menu.
#[derive(Debug, Clone, Copy, PartialEq, Eq, Structural)]
pub enum IndicatorCommand {
    TogglePunctuation,
    ToggleStatusBar,
    OpenSettings,
    OpenDownload,
    LearnPhrase,
}

impl Router {
    /// English only while the built-in English mode is on: every mode operation keeps
    /// this.
    pub open spec fn english_allowed(self) -> bool {
        self.english ==> self.config.english_mode
    }

    pub open spec fn full_width_spec(self, english: bool) -> bool {
        if english {
            self.config.english_full_width
        } else {
            self.config.full_width
        }
    }

    /// Whether punctuation is full width in the given mode (one setting per mode).
    pub fn full_width_for(&self, english: bool) -> (r: bool)
        ensures
            r == self.full_width_spec(english),
    {
        if english {
            self.config.english_full_width
        } else {
            self.config.full_width
        }
    }

    /// The status bar command for the current state: shown while Qingjian is active and
    /// the bar is enabled, hidden otherwise.
    pub open spec fn status_ok(self, c: StatusCommand) -> bool {
        if self.ime_active && self.config.status_enabled {
            c matches StatusCommand::Show(view) && view.english == self.english && view.zhuyin
                == self.config.zhuyin && view.full_width == self.full_width_spec(self.english)
                && view.anchor == self.config.status_pos && (if self.config.scheme_label@.len()
                == 0 {
                view.scheme is None
            } else {
                view.scheme == Some(self.config.scheme_label)
            })
        } else {
            c == StatusCommand::Hide
        }
    }

    /// Shows the status bar when it is enabled and Qingjian is the active input method,
    /// hides it otherwise.
    pub fn reconcile_status(&self) -> (c: StatusCommand)
        ensures
            self.status_ok(c),
    {
        if self.ime_active && self.config.status_enabled {
            let scheme = if self.config.scheme_label.as_str().is_empty() {
                None
            } else {
                Some(self.config.scheme_label.clone())
            };
            StatusCommand::Show(
                StatusView {
                    english: self.english,
                    zhuyin: self.config.zhuyin,
                    scheme,
                    full_width: self.full_width_for(self.english),
                    anchor: self.config.status_pos,
                },
            )
        } else {
            StatusCommand::Hide
        }
    }

    pub open spec fn badge_spec(self) -> Seq<StatusCommand> {
        if self.config.mode_badge {
            seq![StatusCommand::FlashBadge(BadgeView { english: self.english, anchor: self.badge_anchor })]
        } else {
            seq![]
        }
    }

    /// The mode really changed: flash the badge beside the last caret rectangle, unless
    /// the badge is turned off.
    pub fn flash_mode_badge(&self, out: &mut Vec<StatusCommand>)
        ensures
            final(out)@ == old(out)@ + self.badge_spec(),
    {
        if self.config.mode_badge {
            out.push(
                StatusCommand::FlashBadge(
                    BadgeView { english: self.english, anchor: self.badge_anchor },
                ),
            );
        }
    }

    /// A front end reports that the user switched the mode: it becomes the global mode
    /// (never English while the built-in English mode is off). Qingjian is active.
    pub fn handle_mode_changed(&mut self, english: bool) -> (out: Vec<StatusCommand>)
        ensures
            old(self).english_allowed() ==> final(self).english_allowed(),
            final(self).english == (english && old(self).config.english_mode),
            final(self).ime_active,
            *final(self) == (Router {
                english: final(self).english,
                ime_active: true,
                ..*old(self)
            }),
            ({
                let flash = if final(self).english != old(self).english {
                    final(self).badge_spec()
                } else {
                    seq![]
                };
                &&& out@.len() == flash.len() + 1
                &&& out@.subrange(0, flash.len() as int) == flash
                &&& final(self).status_ok(out@.last())
            }),
    {
        let next = english && self.config.english_mode;
        let changed = next != self.english;
        self.english = next;
        self.ime_active = true;
        let mut out = Vec::new();
        if changed {
            self.flash_mode_badge(&mut out);
        }
        let ghost flashed = out@;
        out.push(self.reconcile_status());
        assert(out@.subrange(0, flashed.len() as int) == flashed);
        out
    }

    /// A front end takes the mode: Qingjian is the current input method. With the
    /// built-in English mode off the mode falls back to Chinese. The status bar is
    /// reconsidered when Qingjian was not active before.
    pub fn handle_ime_active(&mut self) -> (out: Vec<StatusCommand>)
        ensures
            old(self).english_allowed() ==> final(self).english_allowed(),
            final(self).english == (old(self).english && old(self).config.english_mode),
            *final(self) == (Router {
                english: final(self).english,
                ime_active: true,
                ..*old(self)
            }),
            old(self).ime_active ==> out@.len() == 0,
            !old(self).ime_active ==> out@.len() == 1 && final(self).status_ok(out@[0]),
    {
        if !self.config.english_mode {
            self.english = false;
        }
        let mut out = Vec::new();
        if !self.ime_active {
            self.ime_active = true;
            out.push(self.reconcile_status());
        }
        out
    }

    /// The user switched to another input method: the status bar goes away.
    pub fn handle_ime_switched(&mut self) -> (c: StatusCommand)
        ensures
            old(self).english_allowed() ==> final(self).english_allowed(),
            *final(self) == (Router { ime_active: false, ..*old(self) }),
            c == StatusCommand::Hide,
    {
        self.ime_active = false;
        self.reconcile_status()
    }

    /// A click on the status bar. Toggling the mode is refused (nothing happens) while
    /// the built-in English mode is off; toggling punctuation flips the setting of the
    /// current mode and writes it back; a drag stores the position and writes it back.
    /// The bar is then redrawn.
    pub fn handle_status_event(&mut self, event: StatusEvent) -> (out: Vec<StatusCommand>)
        ensures
            old(self).english_allowed() ==> final(self).english_allowed(),
            match event {
                StatusEvent::ToggleMode => if !old(self).config.english_mode {
                    out@.len() == 0 && *final(self) == *old(self)
                } else {
                    &&& *final(self) == (Router { english: !old(self).english, ..*old(self) })
                    &&& out@.len() == final(self).badge_spec().len() + 1
                    &&& out@.subrange(0, final(self).badge_spec().len() as int)
                        == final(self).badge_spec()
                    &&& final(self).status_ok(out@.last())
                },
                StatusEvent::TogglePunctuation => {
                    let english = old(self).english;
                    let full = !old(self).full_width_spec(english);
                    &&& *final(self) == (if english {
                        Router {
                            config: RouterConfig { english_full_width: full, ..old(self).config },
                            ..*old(self)
                        }
                    } else {
                        Router {
                            config: RouterConfig { full_width: full, ..old(self).config },
                            ..*old(self)
                        }
                    })
                    &&& out@.len() == 2
                    &&& out@[0] matches StatusCommand::Persist { section, key, value }
                    &&& value == ConfigValue::Bool(full)
                    &&& section@ == "general"@
                    &&& key@ == (if english {
                        "english_full_width_punctuation"@
                    } else {
                        "full_width_punctuation"@
                    })
                    &&& final(self).status_ok(out@[1])
                },
                StatusEvent::Moved(x, y) => {
                    &&& *final(self) == (Router {
                        config: RouterConfig { status_pos: Some((x, y)), ..old(self).config },
                        ..*old(self)
                    })
                    &&& out@.len() == 3
                    &&& out@[0] matches StatusCommand::Persist { section, key, value }
                    &&& section@ == "status_bar"@ && key@ == "x"@ && value == ConfigValue::Int(
                        x as i64,
                    )
                    &&& out@[1] matches StatusCommand::Persist { section, key, value }
                    &&& section@ == "status_bar"@ && key@ == "y"@ && value == ConfigValue::Int(
                        y as i64,
                    )
                    &&& final(self).status_ok(out@[2])
                },
            },
    {
        let mut out = Vec::new();
        match event {
            StatusEvent::ToggleMode => {
                if !self.config.english_mode {
                    return out;
                }
                self.english = !self.english;
                self.flash_mode_badge(&mut out);
            },
            StatusEvent::TogglePunctuation => {
                let english = self.english;
                let full_width = !self.full_width_for(english);
                let key = if english {
                    self.config.english_full_width = full_width;
                    "english_full_width_punctuation"
                } else {
                    self.config.full_width = full_width;
                    "full_width_punctuation"
                };
                out.push(
                    StatusCommand::Persist {
                        section: "general".to_string(),
                        key: key.to_string(),
                        value: ConfigValue::Bool(full_width),
                    },
                );
            },
            StatusEvent::Moved(x, y) => {
                self.config.status_pos = Some((x, y));
                out.push(
                    StatusCommand::Persist {
                        section: "status_bar".to_string(),
                        key: "x".to_string(),
                        value: ConfigValue::Int(x as i64),
                    },
                );
                out.push(
                    StatusCommand::Persist {
                        section: "status_bar".to_string(),
                        key: "y".to_string(),
                        value: ConfigValue::Int(y as i64),
                    },
                );
            },
        }
        let ghost before = out@;
        out.push(self.reconcile_status());
        assert(out@.subrange(0, before.len() as int) == before);
        out
    }

    /// An entry of the taskbar icon's menu. Toggling the status bar flips and writes
    /// back the setting and redraws; the others are handed to the user interface.
    pub fn handle_indicator(&mut self, command: IndicatorCommand) -> (out: Vec<StatusCommand>)
        ensures
            old(self).english_allowed() ==> final(self).english_allowed(),
            command == IndicatorCommand::OpenSettings ==> out@ == seq![StatusCommand::OpenSettings]
                && *final(self) == *old(self),
            command == IndicatorCommand::OpenDownload ==> out@ == seq![StatusCommand::OpenDownload]
                && *final(self) == *old(self),
            command == IndicatorCommand::LearnPhrase ==> out@ == seq![
                StatusCommand::OpenLearnPhrase,
            ] && *final(self) == *old(self),
            command == IndicatorCommand::ToggleStatusBar ==> {
                &&& *final(self) == (Router {
                    config: RouterConfig {
                        status_enabled: !old(self).config.status_enabled,
                        ..old(self).config
                    },
                    ..*old(self)
                })
                &&& out@.len() == 2
                &&& out@[0] matches StatusCommand::Persist { section, key, value }
                &&& section@ == "status_bar"@ && key@ == "enabled"@ && value == ConfigValue::Bool(
                    final(self).config.status_enabled,
                )
                &&& final(self).status_ok(out@[1])
            },
            command == IndicatorCommand::TogglePunctuation ==> {
                let english = old(self).english;
                let full = !old(self).full_width_spec(english);
                &&& *final(self) == (if english {
                    Router {
                        config: RouterConfig { english_full_width: full, ..old(self).config },
                        ..*old(self)
                    }
                } else {
                    Router {
                        config: RouterConfig { full_width: full, ..old(self).config },
                        ..*old(self)
                    }
                })
                &&& out@.len() == 2
                &&& out@[0] matches StatusCommand::Persist { section, key, value }
                &&& value == ConfigValue::Bool(full)
                &&& section@ == "general"@
                &&& key@ == (if english {
                    "english_full_width_punctuation"@
                } else {
                    "full_width_punctuation"@
                })
                &&& final(self).status_ok(out@[1])
            },
    {
        match command {
            IndicatorCommand::TogglePunctuation => self.handle_status_event(
                StatusEvent::TogglePunctuation,
            ),
            IndicatorCommand::ToggleStatusBar => {
                self.config.status_enabled = !self.config.status_enabled;
                let mut out = Vec::new();
                out.push(
                    StatusCommand::Persist {
                        section: "status_bar".to_string(),
                        key: "enabled".to_string(),
                        value: ConfigValue::Bool(self.config.status_enabled),
                    },
                );
                out.push(self.reconcile_status());
                out
            },
            IndicatorCommand::OpenSettings => {
                let mut out = Vec::new();
                out.push(StatusCommand::OpenSettings);
                out
            },
            IndicatorCommand::OpenDownload => {
                let mut out = Vec::new();
                out.push(StatusCommand::OpenDownload);
                out
            },
            IndicatorCommand::LearnPhrase => {
                let mut out = Vec::new();
                out.push(StatusCommand::OpenLearnPhrase);
                out
            },
        }
    }

    /// The caret rectangle a front end reported; the mode badge is placed by the last one.
    pub fn note_caret(&mut self, rect: ScreenRect)
        ensures
            old(self).english_allowed() ==> final(self).english_allowed(),
            *final(self) == (Router { badge_anchor: Some(rect), ..*old(self) }),
    {
        self.badge_anchor = Some(rect);
    }
}

/// While the status bar is shown it shows the current mode and the punctuation setting
/// of that mode: `english_full_width` in English, `full_width` in Chinese.
pub proof fn law_status_bar_shows_the_current_mode(r: Router, c: StatusCommand)
    requires
        r.status_ok(c),
        r.ime_active,
        r.config.status_enabled,
    ensures
        c matches StatusCommand::Show(view) && view.english == r.english && view.full_width == (
        if r.english {
            r.config.english_full_width
        } else {
            r.config.full_width
        }),
{
}

/// The status bar is hidden whenever Qingjian is not the active input method or the bar
/// is turned off.
pub proof fn law_status_bar_hidden_otherwise(r: Router, c: StatusCommand)
    requires
        r.status_ok(c),
        !(r.ime_active && r.config.status_enabled),
    ensures
        c == StatusCommand::Hide,
{
}

} // verus!
