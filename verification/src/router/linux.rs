//! Sessions of the Linux front end: the Fcitx plugin reports facts (capabilities, focus,
//! keys, clicks on the candidate panel) and applies what comes back. Each session keeps
//! its own composition while another one has the focus.

use vstd::prelude::*;

use super::{
    composed_cells, composition_ok, Capabilities, Composed, DisplayIdentity, Effect, Router, SessionInfo,
};
use crate::keys::KeyEvent;
use crate::layout::{holds_text, Frame};
use crate::router::navigation::opt_int;

verus! {

/// Whether the key was used.
#[derive(Debug, Clone, Copy, PartialEq, Eq, Structural)]
pub enum KeyOutcome {
    Consumed,
    Passthrough,
}

/// Whose engine input a discard clears.
#[derive(Debug, Clone, Copy, PartialEq, Eq, Structural)]
pub enum DiscardTarget {
    /// The focused engine (the router's composition was cleared too).
    Focused,
    /// The session's own engine, kept while it is not focused.
    Unfocused,
}

/// What the engine holds at the moment of a decision.
#[derive(Debug, Clone)]
pub struct EngineSnapshot {
    /// Letters are being composed.
    pub composing: bool,
    /// Words chosen but not yet handed to the application.
    pub pending: String,
    /// What taking the raw input would give: the pending words, then the letters.
    pub raw: String,
}

/// What a key or a deactivation commits, and what the engine is to do.
#[derive(Debug, Clone)]
pub struct LinuxStep {
    pub outcome: KeyOutcome,
    pub commit: Option<String>,
    /// Take the raw input out of the engine.
    pub take_raw: bool,
    /// Take the pending words out of the engine.
    pub take_pending: bool,
    /// Reset the composition (after the raw input was taken).
    pub reset: bool,
    /// Rebuild the composition from a new query.
    pub recompose: bool,
}

pub open spec fn unique_ids(s: Seq<SessionInfo>) -> bool {
    forall|i: int, j: int|
        0 <= i < s.len() && 0 <= j < s.len() && i != j ==> #[trigger] s[i].id != #[trigger] s[j].id
}

pub open spec fn same_ids(a: Seq<SessionInfo>, b: Seq<SessionInfo>) -> bool {
    &&& a.len() == b.len()
    &&& forall|k: int| 0 <= k < a.len() ==> (#[trigger] a[k]).id == b[k].id
}

/// The session's settings and flags (everything but its kept composition) agree.
pub open spec fn same_flags(a: SessionInfo, b: SessionInfo) -> bool {
    &&& a.id == b.id && a.app == b.app && a.capabilities == b.capabilities
    &&& a.disabled == b.disabled && a.active == b.active && a.shift_pending == b.shift_pending
    &&& a.english == b.english && a.showing == b.showing
    &&& a.display_identity == b.display_identity
}

pub open spec fn has_id(s: Seq<SessionInfo>, id: u64) -> bool {
    exists|i: int| 0 <= i < s.len() && (#[trigger] s[i]).id == id
}

/// Position of session `id`.
pub open spec fn pos(s: Seq<SessionInfo>, id: u64) -> int {
    choose|i: int| 0 <= i < s.len() && (#[trigger] s[i]).id == id
}

/// Two panel identities name the same panel.
pub open spec fn same_panel(shown: Option<DisplayIdentity>, clicked: DisplayIdentity) -> bool {
    match shown {
        Some(d) => d.generation == clicked.generation && d.context@ == clicked.context@
            && d.revision == clicked.revision,
        None => false,
    }
}

/// The revision after `r`; the counter wraps.
pub open spec fn next_revision(r: u64) -> u64 {
    if r == u64::MAX {
        0
    } else {
        (r + 1) as u64
    }
}

/// Sessions with the same ids at the same places are found the same way.
pub proof fn lemma_same_ids(a: Seq<SessionInfo>, b: Seq<SessionInfo>)
    requires
        same_ids(a, b),
        unique_ids(a),
    ensures
        unique_ids(b),
        forall|id: u64| #[trigger] has_id(b, id) == has_id(a, id),
        forall|id: u64| has_id(a, id) ==> #[trigger] pos(b, id) == pos(a, id),
{
    assert forall|x: int, y: int|
        0 <= x < b.len() && 0 <= y < b.len() && x != y implies #[trigger] b[x].id
        != #[trigger] b[y].id by {
        assert(a[x].id == b[x].id && a[y].id == b[y].id);
    }
    assert forall|id: u64| #[trigger] has_id(b, id) == has_id(a, id) by {
        if has_id(a, id) {
            let p = choose|i: int| 0 <= i < a.len() && (#[trigger] a[i]).id == id;
            assert(b[p].id == id);
        }
        if has_id(b, id) {
            let p = choose|i: int| 0 <= i < b.len() && (#[trigger] b[i]).id == id;
            assert(a[p].id == id);
        }
    }
    assert forall|id: u64| has_id(a, id) implies #[trigger] pos(b, id) == pos(a, id) by {
        let p = pos(a, id);
        assert(b[p].id == id);
        assert(has_id(b, id));
        let q = pos(b, id);
        assert(a[q].id == id);
    }
}

/// Text that is not empty.
pub open spec fn non_empty(text: String) -> Option<String> {
    if text@.len() == 0 {
        None
    } else {
        Some(text)
    }
}

fn keep_non_empty(text: String) -> (r: Option<String>)
    ensures
        r == non_empty(text),
{
    if text.as_str().is_empty() {
        None
    } else {
        Some(text)
    }
}

impl SessionInfo {
    /// A session just opened by application `app`.
    pub open spec fn opened(self, id: u64, app: Option<String>) -> bool {
        &&& self.id == id
        &&& self.app == app
        &&& self.capabilities is None
        &&& !self.disabled && !self.active && !self.shift_pending && !self.english
            && !self.showing
        &&& self.composed is None
        &&& self.highlight == 0 && !self.navigated
        &&& self.display_identity is None
    }

    pub fn new(id: u64, app: Option<String>) -> (r: SessionInfo)
        ensures
            r.opened(id, app),
    {
        SessionInfo {
            id,
            app,
            capabilities: None,
            disabled: false,
            active: false,
            shift_pending: false,
            english: false,
            showing: false,
            composed: None,
            highlight: 0,
            navigated: false,
            display_identity: None,
        }
    }
}

impl Router {
    pub open spec fn linux_wf(self) -> bool {
        &&& self.wf()
        &&& unique_ids(self.sessions@)
        &&& (self.focused matches Some(f) ==> has_id(self.sessions@, f))
        &&& forall|k: int|
            0 <= k < self.sessions@.len() ==> composition_ok(
                (#[trigger] self.sessions@[k]).composed,
                self.sessions@[k].highlight,
                self.config.page_size,
            )
    }

    pub open spec fn session(self, id: u64) -> SessionInfo {
        self.sessions@[pos(self.sessions@, id)]
    }

    /// Router fields other than the sessions and the focus are the same.
    pub open spec fn same_but_sessions(self, other: Router) -> bool {
        Router { sessions: other.sessions, focused: other.focused, ..self } == other
    }

    /// `next` is this router after the focus went to session `id`: the focused
    /// session's composition went back to that session, and `id`'s came out of it.
    pub open spec fn focus_given(self, next: Router, id: u64) -> bool {
        &&& next.focused == Some(id)
        &&& self.focused == Some(id) ==> next == self
        &&& self.focused != Some(id) ==> {
            &&& next.composed == self.session(id).composed
            &&& next.highlight == self.session(id).highlight
            &&& next.navigated == self.session(id).navigated
            &&& self.focused matches Some(f) ==> {
                &&& next.session(f).composed == self.composed
                &&& next.session(f).highlight == self.highlight
                &&& next.session(f).navigated == self.navigated
            }
        }
    }

    /// The panel revision after session `id`'s input is thrown away: moved on when a
    /// panel was shown for it (that panel is stale).
    pub open spec fn discard_revision(self, id: u64) -> u64 {
        if self.session(id).display_identity is Some {
            next_revision(self.display_revision)
        } else {
            self.display_revision
        }
    }

    /// Session `id` after its input is thrown away: no frame, no kept composition, no
    /// pending Shift tap; its panel carries the new revision.
    pub open spec fn discarded_session(self, id: u64) -> SessionInfo {
        let info = self.session(id);
        SessionInfo {
            shift_pending: false,
            showing: false,
            composed: None,
            highlight: 0,
            navigated: false,
            display_identity: match info.display_identity {
                Some(d) => Some(DisplayIdentity { revision: self.discard_revision(id), ..d }),
                None => None,
            },
            ..info
        }
    }

    /// Apart from the sessions, `next` is this router after session `id`'s input was
    /// thrown away: the revision moved on, and when `id` has the focus the composition,
    /// completion and notice are gone too.
    pub open spec fn discarded_rest(self, next: Router, id: u64) -> bool {
        if self.focused == Some(id) {
            next == Router {
                composed: None,
                sentence: None,
                notice: None,
                highlight: 0,
                navigated: false,
                sessions: next.sessions,
                display_revision: self.discard_revision(id),
                ..self
            }
        } else {
            next == Router {
                sessions: next.sessions,
                display_revision: self.discard_revision(id),
                ..self
            }
        }
    }

    /// Session `id` once it has the focus: its kept composition went to the router.
    pub open spec fn focus_taken(self, id: u64) -> SessionInfo {
        if self.focused == Some(id) {
            self.session(id)
        } else {
            SessionInfo { composed: None, highlight: 0, navigated: false, ..self.session(id) }
        }
    }

    /// In `next`, after session `id` took the focus, the session that had it keeps this
    /// router's composition and every other session is as it was.
    pub open spec fn sessions_kept(self, next: Router, id: u64) -> bool {
        &&& forall|k: int|
            0 <= k < next.sessions@.len() && next.sessions@[k].id != id && Some(
                next.sessions@[k].id,
            ) != self.focused ==> #[trigger] next.sessions@[k] == self.sessions@[k]
        &&& self.focused != Some(id) ==> (self.focused matches Some(f) ==> {
            &&& next.session(f).composed == self.composed
            &&& next.session(f).highlight == self.highlight
            &&& next.session(f).navigated == self.navigated
        })
    }

    /// The composition, highlight and navigation that session `id` shows once it has the
    /// focus: the router's own when it has it already, else the ones kept with it.
    pub open spec fn focused_view(self, id: u64) -> (Option<Composed>, usize, bool) {
        if self.focused == Some(id) {
            (self.composed, self.highlight, self.navigated)
        } else {
            (self.session(id).composed, self.session(id).highlight, self.session(id).navigated)
        }
    }

    fn find_session(&self, id: u64) -> (r: Option<usize>)
        requires
            unique_ids(self.sessions@),
        ensures
            match r {
                Some(i) => has_id(self.sessions@, id) && i == pos(self.sessions@, id),
                None => !has_id(self.sessions@, id),
            },
    {
        let n = self.sessions.len();
        let mut i: usize = 0;
        while i < n
            invariant
                n == self.sessions@.len(),
                unique_ids(self.sessions@),
                i <= n,
                forall|k: int| 0 <= k < i ==> (#[trigger] self.sessions@[k]).id != id,
            decreases n - i,
        {
            if self.sessions[i].id == id {
                assert(self.sessions@[i as int].id == id);
                assert(has_id(self.sessions@, id));
                let ghost j = pos(self.sessions@, id);
                assert(0 <= j < self.sessions@.len() && self.sessions@[j].id == id);
                assert(j == i);
                return Some(i);
            }
            i = i + 1;
        }
        None
    }

    /// The session is open.
    pub fn contains_session(&self, id: u64) -> (r: bool)
        requires
            unique_ids(self.sessions@),
        ensures
            r == has_id(self.sessions@, id),
    {
        self.find_session(id).is_some()
    }

    /// Closes session `id`; the focus is dropped when it was that session.
    pub fn close_session(&mut self, id: u64)
        requires
            old(self).linux_wf(),
        ensures
            final(self).linux_wf(),
            !has_id(final(self).sessions@, id),
            forall|other: u64|
                other != id ==> (has_id(final(self).sessions@, other) == has_id(
                    old(self).sessions@,
                    other,
                )) && (has_id(old(self).sessions@, other) ==> final(self).session(other)
                    == old(self).session(other)),
            final(self).focused == (if old(self).focused == Some(id) {
                None
            } else {
                old(self).focused
            }),
            old(self).same_but_sessions(*final(self)),
    {
        if let Some(i) = self.find_session(id) {
            let ghost before = self.sessions@;
            self.sessions.remove(i);
            proof {
                let after = self.sessions@;
                assert(after =~= before.remove(i as int));
                assert forall|k: int| 0 <= k < after.len() implies (#[trigger] after[k]).id != id by {
                    if k < i {
                        assert(after[k] == before[k]);
                    } else {
                        assert(after[k] == before[k + 1]);
                    }
                }
                assert forall|other: u64| other != id implies (has_id(after, other) == has_id(
                    before,
                    other,
                )) && (has_id(before, other) ==> after[pos(after, other)] == before[pos(
                    before,
                    other,
                )]) by {
                    if has_id(before, other) {
                        let p = pos(before, other);
                        let q = if p < i {
                            p
                        } else {
                            p - 1
                        };
                        assert(after[q].id == other);
                        assert(has_id(after, other));
                        let r = pos(after, other);
                        let rb = if r < i {
                            r
                        } else {
                            r + 1
                        };
                        assert(before[rb].id == other);
                    }
                    if has_id(after, other) {
                        let r = pos(after, other);
                        let rb = if r < i {
                            r
                        } else {
                            r + 1
                        };
                        assert(before[rb].id == other);
                    }
                }
            }
        }
        if self.focused == Some(id) {
            self.focused = None;
        }
    }

    /// A session opens (`OpenSession`). A plugin of another protocol version is ignored
    /// (`false`); otherwise any old session of that id is closed and a new one starts.
    pub fn open_session(&mut self, id: u64, app: Option<String>, protocol: u32, current: u32) -> (r:
        bool)
        requires
            old(self).linux_wf(),
        ensures
            final(self).linux_wf(),
            r == (protocol == current),
            !r ==> *final(self) == *old(self),
            r ==> has_id(final(self).sessions@, id) && final(self).session(id).opened(id, app),
            r ==> forall|other: u64|
                other != id ==> (has_id(final(self).sessions@, other) == has_id(
                    old(self).sessions@,
                    other,
                )) && (has_id(old(self).sessions@, other) ==> final(self).session(other)
                    == old(self).session(other)),
            r ==> final(self).focused == (if old(self).focused == Some(id) {
                None
            } else {
                old(self).focused
            }),
            r ==> old(self).same_but_sessions(*final(self)),
    {
        if protocol != current {
            return false;
        }
        self.close_session(id);
        let ghost before = self.sessions@;
        self.sessions.push(SessionInfo::new(id, app));
        proof {
            let after = self.sessions@;
            assert(after[before.len() as int].id == id);
            assert(has_id(after, id));
            assert forall|x: int, y: int|
                0 <= x < after.len() && 0 <= y < after.len() && x != y implies #[trigger] after[x].id
                != #[trigger] after[y].id by {
                if x < before.len() && y < before.len() {
                } else if x < before.len() {
                    assert(before[x].id != id);
                } else if y < before.len() {
                    assert(before[y].id != id);
                }
            }
            if let Some(f) = self.focused {
                let p = pos(before, f);
                assert(after[p].id == f);
            }
            assert forall|other: u64| other != id implies (has_id(after, other) == has_id(
                before,
                other,
            )) && (has_id(before, other) ==> after[pos(after, other)] == before[pos(
                before,
                other,
            )]) by {
                if has_id(before, other) {
                    let p = pos(before, other);
                    assert(after[p].id == other);
                    assert(has_id(after, other));
                    let q = pos(after, other);
                    if q != p {
                        assert(after[q].id == after[p].id);
                    }
                }
                if has_id(after, other) {
                    let q = pos(after, other);
                    if q < before.len() {
                        assert(before[q].id == other);
                    }
                }
            }
        }
        true
    }

    /// Gives the focus to session `id`: the composition of the session that had it is
    /// kept with that session, and `id`'s own composition comes back. `true` when the
    /// focus moved (the engines are to be swapped likewise).
    #[verifier::rlimit(60)]
    pub fn ensure_focus(&mut self, id: u64) -> (switched: bool)
        requires
            old(self).linux_wf(),
            has_id(old(self).sessions@, id),
        ensures
            final(self).linux_wf(),
            switched == (old(self).focused != Some(id)),
            old(self).focus_given(*final(self), id),
            *final(self) == (Router {
                composed: final(self).composed,
                highlight: final(self).highlight,
                navigated: final(self).navigated,
                sessions: final(self).sessions,
                focused: final(self).focused,
                ..*old(self)
            }),
            same_ids(old(self).sessions@, final(self).sessions@),
            forall|k: int|
                0 <= k < final(self).sessions@.len() ==> same_flags(
                    #[trigger] final(self).sessions@[k],
                    old(self).sessions@[k],
                ),
            old(self).sessions_kept(*final(self), id),
            final(self).session(id) == old(self).focus_taken(id),
    {
        if self.focused == Some(id) {
            return false;
        }
        let target = self.find_session(id).unwrap();
        let previous = match self.focused {
            Some(f) => self.find_session(f),
            None => None,
        };
        if let Some(i) = previous {
            let saved = self.composed.take();
            self.sessions[i].composed = saved;
            self.sessions[i].highlight = self.highlight;
            self.sessions[i].navigated = self.navigated;
        }
        let restored = self.sessions[target].composed.take();
        self.composed = restored;
        self.highlight = self.sessions[target].highlight;
        self.navigated = self.sessions[target].navigated;
        self.sessions[target].highlight = 0;
        self.sessions[target].navigated = false;
        self.focused = Some(id);
        proof {
            lemma_same_ids(old(self).sessions@, self.sessions@);
            if let Some(f) = old(self).focused {
                let p = pos(old(self).sessions@, f);
                assert(self.sessions@[p].id == f);
                assert(p != target as int);
            }
        }
        true
    }

    /// Session `id`'s input is thrown away: its frame, its kept composition, a pending
    /// Shift tap. A shown candidate panel becomes stale (its revision moves on). When the
    /// session has the focus the router's composition, completion and notice go too.
    /// Says whose engine input is to be discarded.
    pub fn discard_session(&mut self, id: u64) -> (target: DiscardTarget)
        requires
            old(self).linux_wf(),
            has_id(old(self).sessions@, id),
        ensures
            final(self).linux_wf(),
            target == (if old(self).focused == Some(id) {
                DiscardTarget::Focused
            } else {
                DiscardTarget::Unfocused
            }),
            final(self).sessions@ == old(self).sessions@.update(
                pos(old(self).sessions@, id),
                old(self).discarded_session(id),
            ),
            old(self).discarded_rest(*final(self), id),
    {
        let i = self.find_session(id).unwrap();
        self.sessions[i].shift_pending = false;
        self.sessions[i].showing = false;
        self.sessions[i].composed = None;
        self.sessions[i].highlight = 0;
        self.sessions[i].navigated = false;
        let identity = self.sessions[i].display_identity.take();
        if let Some(mut d) = identity {
            self.display_revision = if self.display_revision == u64::MAX {
                0
            } else {
                self.display_revision + 1
            };
            d.revision = self.display_revision;
            self.sessions[i].display_identity = Some(d);
        }
        proof {
            lemma_same_ids(old(self).sessions@, self.sessions@);
        }
        if self.focused == Some(id) {
            self.composed = None;
            self.sentence = None;
            self.notice = None;
            self.highlight = 0;
            self.navigated = false;
            DiscardTarget::Focused
        } else {
            DiscardTarget::Unfocused
        }
    }

    /// A click on the candidate panel counts only for the focused, active, enabled
    /// session whose panel it is (same identity, so a stale panel is ignored).
    pub fn valid_panel_event(&self, id: u64, identity: &DisplayIdentity) -> (r: bool)
        requires
            unique_ids(self.sessions@),
        ensures
            r == (has_id(self.sessions@, id) && self.focused == Some(id) && self.session(id).active
                && !self.session(id).disabled && same_panel(self.session(id).display_identity, *identity)),
    {
        let i = match self.find_session(id) {
            Some(i) => i,
            None => return false,
        };
        let info = &self.sessions[i];
        let same = match &info.display_identity {
            Some(d) => d.generation == identity.generation && d.context == identity.context
                && d.revision == identity.revision,
            None => false,
        };
        self.focused == Some(id) && info.active && !info.disabled && same
    }

    /// The plugin's input capabilities changed. A password field or a disabled context
    /// turns the session off; those and sensitive fields make it private. Any change
    /// throws the old input away (even between two private kinds). `Some(private)` when
    /// the capabilities changed: the engine's privacy is to be set.
    pub fn linux_capabilities(&mut self, id: u64, caps: Capabilities) -> (r: Option<(bool, DiscardTarget)>)
        requires
            old(self).linux_wf(),
            has_id(old(self).sessions@, id),
        ensures
            final(self).linux_wf(),
            old(self).session(id).capabilities == Some(caps) ==> r is None && *final(self)
                == *old(self),
            old(self).session(id).capabilities != Some(caps) ==> {
                &&& r == Some(
                    (
                        caps.password || caps.disabled || caps.sensitive,
                        if old(self).focused == Some(id) {
                            DiscardTarget::Focused
                        } else {
                            DiscardTarget::Unfocused
                        },
                    ),
                )
                &&& final(self).sessions@ == old(self).sessions@.update(
                    pos(old(self).sessions@, id),
                    SessionInfo {
                        capabilities: Some(caps),
                        disabled: caps.password || caps.disabled,
                        ..old(self).discarded_session(id)
                    },
                )
                &&& old(self).discarded_rest(*final(self), id)
            },
            has_id(final(self).sessions@, id),
    {
        let disabled = caps.password || caps.disabled;
        let private = disabled || caps.sensitive;
        let i = self.find_session(id).unwrap();
        if self.sessions[i].capabilities == Some(caps) {
            return None;
        }
        let target = self.discard_session(id);
        proof {
            lemma_same_ids(old(self).sessions@, self.sessions@);
        }
        self.sessions[i].capabilities = Some(caps);
        self.sessions[i].disabled = disabled;
        proof {
            lemma_same_ids(old(self).sessions@, self.sessions@);
        }
        Some((private, target))
    }

    /// The context gained or lost the focus. Losing it, the focused session tells the
    /// engine nothing is displayed any more; gaining it, the session takes the focus.
    /// Returns (nothing is displayed, the focus moved).
    pub fn linux_focus(&mut self, id: u64, focused: bool) -> (r: (bool, bool))
        requires
            old(self).linux_wf(),
            has_id(old(self).sessions@, id),
        ensures
            final(self).linux_wf(),
            r.0 == (!focused && old(self).focused == Some(id)),
            r.1 == (focused && old(self).focused != Some(id)),
            final(self).session(id) == (SessionInfo {
                active: focused,
                shift_pending: false,
                showing: false,
                ..(if focused {
                    old(self).focus_taken(id)
                } else {
                    old(self).session(id)
                })
            }),
            focused ==> final(self).focused == Some(id),
            !focused ==> final(self).focused == old(self).focused,
            focused ==> (final(self).composed, final(self).highlight, final(self).navigated)
                == old(self).focused_view(id),
            !focused ==> (final(self).composed, final(self).highlight, final(self).navigated)
                == (old(self).composed, old(self).highlight, old(self).navigated),
            focused ==> old(self).sessions_kept(*final(self), id),
            !focused ==> final(self).sessions@.len() == old(self).sessions@.len() && forall|k: int|
                0 <= k < final(self).sessions@.len() && final(self).sessions@[k].id != id
                    ==> #[trigger] final(self).sessions@[k] == old(self).sessions@[k],
            *final(self) == (Router {
                composed: final(self).composed,
                highlight: final(self).highlight,
                navigated: final(self).navigated,
                sessions: final(self).sessions,
                focused: final(self).focused,
                ..*old(self)
            }),
    {
        let i = self.find_session(id).unwrap();
        self.sessions[i].active = focused;
        self.sessions[i].shift_pending = false;
        self.sessions[i].showing = false;
        proof {
            lemma_same_ids(old(self).sessions@, self.sessions@);
        }
        let cleared = !focused && self.focused == Some(id);
        let mut switched = false;
        if focused {
            switched = self.ensure_focus(id);
            proof {
                lemma_same_ids(old(self).sessions@, self.sessions@);
            }
        }
        (cleared, switched)
    }

    /// The context was deactivated. With changed capabilities or a disabled session the
    /// input is thrown away; otherwise what was typed (pending words and letters) is
    /// committed, unless the context lost the focus while the client draws the preedit
    /// itself, and the composition is reset. The session is inactive afterwards.
    pub fn linux_deactivate(
        &mut self,
        id: u64,
        focus_out: bool,
        client_preedit: bool,
        capability_changed: bool,
        engine: &EngineSnapshot,
    ) -> (r: LinuxStep)
        requires
            old(self).linux_wf(),
            has_id(old(self).sessions@, id),
        ensures
            final(self).linux_wf(),
            has_id(final(self).sessions@, id),
            !final(self).session(id).active,
            !final(self).session(id).shift_pending,
            !final(self).session(id).showing,
            r.outcome == KeyOutcome::Passthrough,
            !r.take_pending && !r.recompose,
            (capability_changed || old(self).session(id).disabled) ==> r.commit is None
                && !r.take_raw && !r.reset && final(self).sessions@ == old(self).sessions@.update(
                pos(old(self).sessions@, id),
                SessionInfo { active: false, ..old(self).discarded_session(id) },
            ) && old(self).discarded_rest(*final(self), id),
            !(capability_changed || old(self).session(id).disabled) ==> {
                &&& final(self).focused == Some(id)
                &&& (final(self).composed, final(self).highlight, final(self).navigated) == old(
                    self,
                ).focused_view(id)
                &&& *final(self) == (Router {
                    composed: final(self).composed,
                    highlight: final(self).highlight,
                    navigated: final(self).navigated,
                    sessions: final(self).sessions,
                    focused: final(self).focused,
                    ..*old(self)
                })
                &&& old(self).sessions_kept(*final(self), id)
                &&& final(self).session(id) == (SessionInfo {
                    active: false,
                    shift_pending: false,
                    showing: false,
                    ..old(self).focus_taken(id)
                })
                &&& r.reset
                &&& r.take_raw == (engine.pending@.len() > 0 || engine.composing)
                &&& r.commit == (if r.take_raw && !(focus_out && client_preedit) {
                    non_empty(engine.raw)
                } else {
                    None
                })
            },
    {
        let i = self.find_session(id).unwrap();
        let mut step = LinuxStep {
            outcome: KeyOutcome::Passthrough,
            commit: None,
            take_raw: false,
            take_pending: false,
            reset: false,
            recompose: false,
        };
        if capability_changed || self.sessions[i].disabled {
            self.discard_session(id);
        } else {
            self.ensure_focus(id);
            let take = !engine.pending.as_str().is_empty() || engine.composing;
            step.take_raw = take;
            if take && !(focus_out && client_preedit) {
                step.commit = keep_non_empty(engine.raw.clone());
            }
            step.reset = true;
        }
        proof {
            lemma_same_ids(old(self).sessions@, self.sessions@);
        }
        self.sessions[i].active = false;
        self.sessions[i].shift_pending = false;
        self.sessions[i].showing = false;
        proof {
            lemma_same_ids(old(self).sessions@, self.sessions@);
        }
        step
    }

    /// A key of a disabled session, or of one whose capabilities are not known yet, is
    /// not handled at all.
    pub fn linux_key_ignored(&self, id: u64) -> (r: bool)
        requires
            unique_ids(self.sessions@),
            has_id(self.sessions@, id),
        ensures
            r == (self.session(id).disabled || self.session(id).capabilities is None),
    {
        let i = self.find_session(id).unwrap();
        self.sessions[i].disabled || self.sessions[i].capabilities.is_none()
    }

    /// A key release. A Shift tapped alone toggles the session's English mode, commits
    /// what was typed and resets the composition (consumed). The frequency key's release
    /// ends the count preview; the key still goes to the application.
    pub fn linux_key_release(&mut self, id: u64, event: &KeyEvent, engine: &EngineSnapshot) -> (r:
        LinuxStep)
        requires
            old(self).linux_wf(),
            has_id(old(self).sessions@, id),
        ensures
            final(self).linux_wf(),
            has_id(final(self).sessions@, id),
            final(self).focused == Some(id),
            final(self).notice is None,
            !r.take_pending && !r.recompose,
            ({
                let tap = event.virtual_key == 0x10 && old(self).session(id).shift_pending;
                &&& tap ==> final(self).session(id).english == !old(self).session(id).english
                    && !final(self).session(id).shift_pending && r.outcome == KeyOutcome::Consumed
                    && r.reset && r.take_raw == (engine.pending@.len() > 0 || engine.composing)
                    && r.commit == (if r.take_raw {
                    non_empty(engine.raw)
                } else {
                    None
                })
                &&& !tap ==> final(self).session(id).english == old(self).session(id).english
                    && r.outcome == KeyOutcome::Passthrough && r.commit is None && !r.reset
                    && !r.take_raw
            }),
            final(self).preview_frequency == (if old(self).config.adjust_keys is Some
                && engine.composing && crate::keys::spec_is_modifier_key(event.virtual_key) {
                false
            } else {
                old(self).preview_frequency
            }),
            (final(self).composed, final(self).highlight, final(self).navigated) == old(
                self,
            ).focused_view(id),
            *final(self) == (Router {
                composed: final(self).composed,
                highlight: final(self).highlight,
                navigated: final(self).navigated,
                sessions: final(self).sessions,
                focused: final(self).focused,
                notice: None,
                preview_frequency: final(self).preview_frequency,
                ..*old(self)
            }),
            old(self).sessions_kept(*final(self), id),
            ({
                let tap = event.virtual_key == 0x10 && old(self).session(id).shift_pending;
                final(self).session(id) == (if tap {
                    SessionInfo {
                        shift_pending: false,
                        english: !old(self).session(id).english,
                        ..old(self).focus_taken(id)
                    }
                } else {
                    old(self).focus_taken(id)
                })
            }),
    {
        let mut step = LinuxStep {
            outcome: KeyOutcome::Passthrough,
            commit: None,
            take_raw: false,
            take_pending: false,
            reset: false,
            recompose: false,
        };
        let i = self.find_session(id).unwrap();
        let ghost before_focus = self.session(id);
        self.ensure_focus(id);
        proof {
            lemma_same_ids(old(self).sessions@, self.sessions@);
        }
        self.notice = None;
        let shift = event.virtual_key == 0x10;
        if shift && self.sessions[i].shift_pending {
            self.sessions[i].shift_pending = false;
            self.sessions[i].english = !self.sessions[i].english;
            let take = !engine.pending.as_str().is_empty() || engine.composing;
            step.take_raw = take;
            if take {
                step.commit = keep_non_empty(engine.raw.clone());
            }
            step.reset = true;
            step.outcome = KeyOutcome::Consumed;
        }
        proof {
            lemma_same_ids(old(self).sessions@, self.sessions@);
        }
        let released = event.released();
        self.apply_adjust_modifier(&released, engine.composing);
        step
    }

    /// A key press. Shift alone may start a tap (not with Ctrl / Alt / Win); the event
    /// is stamped with the session's English mode. Returns the event for the engine's key
    /// handling, or `None` for Shift itself, which goes to the application.
    #[verifier::rlimit(50)]
    pub fn linux_key_press(&mut self, id: u64, event: &KeyEvent) -> (r: Option<KeyEvent>)
        requires
            old(self).linux_wf(),
            has_id(old(self).sessions@, id),
        ensures
            final(self).linux_wf(),
            has_id(final(self).sessions@, id),
            final(self).focused == Some(id),
            final(self).notice is None,
            (final(self).composed, final(self).highlight, final(self).navigated) == old(
                self,
            ).focused_view(id),
            *final(self) == (Router {
                composed: final(self).composed,
                highlight: final(self).highlight,
                navigated: final(self).navigated,
                sessions: final(self).sessions,
                focused: final(self).focused,
                notice: None,
                ..*old(self)
            }),
            old(self).sessions_kept(*final(self), id),
            final(self).session(id) == (SessionInfo {
                shift_pending: event.virtual_key == 0x10 && !event.modifiers.spec_has_command_key(),
                ..old(self).focus_taken(id)
            }),
            event.virtual_key == 0x10 ==> r is None,
            event.virtual_key != 0x10 ==> r == Some(
                KeyEvent {
                    modifiers: crate::keys::KeyModifiers {
                        english_mode: old(self).session(id).english,
                        ..event.modifiers
                    },
                    ..*event
                },
            ),
    {
        let i = self.find_session(id).unwrap();
        self.ensure_focus(id);
        proof {
            lemma_same_ids(old(self).sessions@, self.sessions@);
        }
        self.notice = None;
        let shift = event.virtual_key == 0x10;
        self.sessions[i].shift_pending = shift && !event.modifiers.has_command_key();
        proof {
            lemma_same_ids(old(self).sessions@, self.sessions@);
        }
        if shift {
            return None;
        }
        let mut stamped = *event;
        stamped.modifiers.english_mode = self.sessions[i].english;
        Some(stamped)
    }

    /// What a key's effect commits: the text of a change (an empty text is no commit:
    /// the words stay in the engine until the composition ends); nothing when only the
    /// highlight moved or the preview changed; for a key handed to the application, the
    /// pending words go first.
    pub fn key_effect_step(&self, effect: Effect, pending: &String) -> (r: LinuxStep)
        ensures
            !r.take_raw && !r.reset,
            match effect {
                Effect::Changed(text) => r.recompose && !r.take_pending && r.outcome
                    == KeyOutcome::Consumed && r.commit == match text {
                    Some(t) => non_empty(t),
                    None => None,
                },
                Effect::Navigated => !r.recompose && !r.take_pending && r.outcome
                    == KeyOutcome::Consumed && r.commit is None,
                Effect::Noted => !r.recompose && !r.take_pending && r.outcome
                    == KeyOutcome::Passthrough && r.commit is None,
                Effect::Passthrough => !r.recompose && r.take_pending && r.outcome
                    == KeyOutcome::Passthrough && r.commit == non_empty(*pending),
            },
    {
        let mut step = LinuxStep {
            outcome: KeyOutcome::Passthrough,
            commit: None,
            take_raw: false,
            take_pending: false,
            reset: false,
            recompose: false,
        };
        match effect {
            Effect::Changed(text) => {
                step.recompose = true;
                step.outcome = KeyOutcome::Consumed;
                step.commit = match text {
                    Some(t) => keep_non_empty(t),
                    None => None,
                };
            },
            Effect::Navigated => {
                step.outcome = KeyOutcome::Consumed;
            },
            Effect::Noted => {},
            Effect::Passthrough => {
                step.take_pending = true;
                step.commit = keep_non_empty(pending.clone());
            },
        }
        step
    }

    /// A click on candidate `index` of the shown page: the cell to commit, when the click
    /// counts and the slot is on the page.
    pub fn linux_candidate(&self, id: u64, identity: &DisplayIdentity, index: usize) -> (r: Option<usize>)
        requires
            self.linux_wf(),
        ensures
            ({
                let size = self.config.page_size as int;
                let cell = (self.highlight as int / size) * size + index;
                if has_id(self.sessions@, id) && self.focused == Some(id) && self.session(id).active
                    && !self.session(id).disabled && same_panel(self.session(id).display_identity, *identity) && index < size && cell <= usize::MAX {
                    r == Some(cell as usize)
                } else {
                    r is None
                }
            }),
    {
        if !self.valid_panel_event(id, identity) || index >= self.config.page_size {
            return None;
        }
        let size = self.config.page_size;
        let q = self.highlight / size;
        assert(q * size <= self.highlight) by (nonlinear_arith)
            requires
                size > 0,
                q == self.highlight / size,
        ;
        let offset = q * size;
        if index > usize::MAX - offset {
            return None;
        }
        Some(offset + index)
    }

    /// A page button of the panel: turns the page when the click counts (consumed).
    /// Returns (outcome, whether the page changed).
    pub fn linux_page(&mut self, id: u64, identity: &DisplayIdentity, next: bool) -> (r: (KeyOutcome, bool))
        requires
            old(self).linux_wf(),
        ensures
            final(self).linux_wf(),
            ({
                let valid = has_id(old(self).sessions@, id) && old(self).focused == Some(id)
                    && old(self).session(id).active && !old(self).session(id).disabled
                    && same_panel(old(self).session(id).display_identity, *identity);
                &&& valid ==> r.0 == KeyOutcome::Consumed && (*final(self), r.1) == old(self).paged(if next {
                    1
                } else {
                    -1
                })
                &&& !valid ==> r == (KeyOutcome::Passthrough, false) && *final(self) == *old(self)
            }),
    {
        if !self.valid_panel_event(id, identity) {
            return (KeyOutcome::Passthrough, false);
        }
        let turned = self.page(if next {
            1
        } else {
            -1
        });
        (KeyOutcome::Consumed, turned)
    }

    /// When the composition has ended but chosen words were never handed to the
    /// application, they go with this commit, in front of its text. While composing,
    /// nothing changes (the words wait in the engine). Returns the commit and whether
    /// the pending words are to be taken out of the engine.
    pub fn settle_pending(&self, commit: Option<String>, composing: bool, pending: &String) -> (r: (
        Option<String>,
        bool,
    ))
        ensures
            composing || pending@.len() == 0 ==> r.0 == commit && !r.1,
            !composing && pending@.len() > 0 ==> r.1 && holds_text(r.0, match commit {
                Some(c) => pending@ + c@,
                None => pending@,
            }),
    {
        if composing || pending.as_str().is_empty() {
            return (commit, false);
        }
        let mut text = pending.clone();
        if let Some(c) = commit {
            crate::text::append(&mut text, c.as_str());
        }
        (Some(text), true)
    }

    /// The frame sent back with a key result: the current page for the focused, enabled
    /// session; an empty frame otherwise.
    pub fn linux_frame(&self, id: u64) -> (f: Frame)
        requires
            self.linux_wf(),
        ensures
            if has_id(self.sessions@, id) && self.focused == Some(id) && !self.session(id).disabled {
                self.frame_ok(f)
            } else {
                f.empty_spec()
            },
    {
        match self.find_session(id) {
            Some(i) => if self.focused == Some(id) && !self.sessions[i].disabled {
                self.current_frame()
            } else {
                Frame::empty()
            },
            None => Frame::empty(),
        }
    }

    /// `Commit` from the plugin: what was typed, pending words first, is taken out and
    /// committed (nothing for an empty text), and the composition is reset.
    pub fn commit_request(&self, engine: &EngineSnapshot) -> (r: LinuxStep)
        ensures
            r.outcome == KeyOutcome::Passthrough,
            r.reset && !r.take_pending && !r.recompose,
            r.take_raw == (engine.pending@.len() > 0 || engine.composing),
            r.commit == (if r.take_raw {
                non_empty(engine.raw)
            } else {
                None
            }),
    {
        let take = !engine.pending.as_str().is_empty() || engine.composing;
        LinuxStep {
            outcome: KeyOutcome::Passthrough,
            commit: if take {
                keep_non_empty(engine.raw.clone())
            } else {
                None
            },
            take_raw: take,
            take_pending: false,
            reset: true,
            recompose: false,
        }
    }
}

/// Moving the focus from one session to another and back gives the first session its
/// composition, highlight and navigation back as they were.
pub proof fn law_focus_round_trip(r0: Router, r1: Router, r2: Router, a: u64, b: u64)
    requires
        r0.focused == Some(a),
        a != b,
        r0.focus_given(r1, b),
        r1.focus_given(r2, a),
    ensures
        r2.focused == Some(a),
        r2.composed == r0.composed,
        r2.highlight == r0.highlight,
        r2.navigated == r0.navigated,
{
}

} // verus!
