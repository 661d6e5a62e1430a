//! Shortcuts during composition: modifier + digit (commit a translation, forget a
//! candidate), the frequency key (held: preview counts; with K / J: move the highlighted
//! candidate), and the keys that move the highlight.

use vstd::prelude::*;

use super::navigation::reads;
use super::{Composition, Effect, Router};
use crate::keys::{
    adjust_key, ascii_lower, digit_key, is_modifier_key, spec_adjust_key, spec_digit_key,
    spec_is_modifier_key, to_ascii_lowercase, KeyCombo, KeyEvent, KeyModifiers, DOWN, NEXT, PRIOR,
    UP,
};
use crate::layout::Candidate;
use crate::text::append;

verus! {

/// What a modifier + digit asks for.
#[derive(Debug, Clone, PartialEq, Eq)]
pub enum DigitAction {
    /// Commit translation number `sense` (0 or 1) of the candidate in cell `index`.
    CommitTranslation { index: usize, sense: usize },
    /// Forget the candidate in cell `index`.
    Forget { index: usize },
    /// The chord is a shortcut but that slot of the page is empty: the key is swallowed.
    Swallow,
}

/// What the engine reported after forgetting a candidate.
#[derive(Debug, Clone, Copy, PartialEq, Eq, Structural)]
pub struct Forgotten {
    /// A user word was deleted.
    pub user_word: bool,
    /// Learning records of a dictionary word were cleared.
    pub learning: bool,
}

/// What a frequency key + K / J asks for.
#[derive(Debug, Clone)]
pub enum FrequencyAction {
    /// Raise (`up`) or lower the highlighted candidate.
    Adjust { candidate: Candidate, up: bool },
    /// No candidate is highlighted: nothing to adjust, the key is swallowed.
    Swallow,
}

/// Where a key goes, once the frequency key's own press or release is dealt with.
#[derive(Debug, Clone)]
pub enum KeyRoute {
    /// The key goes to the application.
    Pass,
    /// A modifier + digit shortcut during composition.
    Digit(DigitAction),
    /// The frequency key + K / J during composition.
    Frequency(FrequencyAction),
    /// Move the highlight (the highlight combos, ↓ and ↑) during composition.
    Move(isize),
    /// Turn the page (Page Down, Page Up) during composition.
    Page(isize),
    /// A character for the engine.
    Type(char),
}

/// What the frequency key + K / J asks for ([`Router::frequency_target`]).
pub open spec fn frequency_spec(router: Router, event: KeyEvent) -> Option<FrequencyAction> {
    match router.config.adjust_keys {
        Some(keys) if event.modifiers.spec_chord() == keys => match spec_adjust_key(
            event.virtual_key,
        ) {
            Some(up) => match router.layout_cell(router.highlight as int) {
                Some(c) => Some(FrequencyAction::Adjust { candidate: c, up }),
                None => Some(FrequencyAction::Swallow),
            },
            None => None,
        },
        _ => None,
    }
}

/// The route of [`Router::key_route`]: a release goes on; during composition the digit
/// shortcuts come first, then the frequency key, then the highlight combos, then ↓ ↑
/// and the page keys (without Ctrl, Alt or Win); a chord with Ctrl, Alt or Win goes to
/// the application; a character goes to the engine.
pub open spec fn route_spec(router: Router, event: KeyEvent, composing: bool) -> KeyRoute {
    let chord = event.modifiers.spec_chord();
    let digit = match spec_digit_key(event.virtual_key) {
        Some(d) => expected_digit_action(router, d as int, chord),
        None => None,
    };
    let typed = match event.character {
        Some(t) => t,
        None => ' ',
    };
    if event.release {
        KeyRoute::Pass
    } else if composing && digit is Some {
        KeyRoute::Digit(digit->0)
    } else if composing && frequency_spec(router, event) is Some {
        KeyRoute::Frequency(frequency_spec(router, event)->0)
    } else if composing && event.character is Some && combo_hit(
        router.config.highlight_down,
        chord,
        typed,
    ) {
        KeyRoute::Move(1isize)
    } else if composing && event.character is Some && combo_hit(
        router.config.highlight_up,
        chord,
        typed,
    ) {
        KeyRoute::Move(-1isize)
    } else if composing && !event.modifiers.spec_has_command_key() && (event.virtual_key == DOWN
        || event.virtual_key == UP) {
        KeyRoute::Move(if event.virtual_key == DOWN {
            1isize
        } else {
            -1isize
        })
    } else if composing && !event.modifiers.spec_has_command_key() && (event.virtual_key == NEXT
        || event.virtual_key == PRIOR) {
        KeyRoute::Page(if event.virtual_key == NEXT {
            1isize
        } else {
            -1isize
        })
    } else if event.modifiers.spec_has_command_key() {
        KeyRoute::Pass
    } else {
        match event.character {
            Some(c) => KeyRoute::Type(c),
            None => KeyRoute::Pass,
        }
    }
}

/// The action that a chord with a digit names, if any.
pub open spec fn digit_shortcut_kind(router: Router, chord: KeyModifiers) -> Option<Option<usize>> {
    if chord == KeyModifiers::default_spec() {
        None
    } else if Some(chord) == router.config.translation_keys.0 {
        Some(Some(0))
    } else if Some(chord) == router.config.translation_keys.1 {
        Some(Some(1))
    } else if Some(chord) == router.config.delete_keys {
        Some(None)
    } else {
        None
    }
}

/// The action of [`Router::apply_digit_shortcut`].
pub open spec fn expected_digit_action(router: Router, digit: int, chord: KeyModifiers) -> Option<
    DigitAction,
> {
    match digit_shortcut_kind(router, chord) {
        None => None,
        Some(kind) => match router.slot_index(digit) {
            None => Some(DigitAction::Swallow),
            Some(i) => if router.cells()[i] is None {
                Some(DigitAction::Swallow)
            } else {
                match kind {
                    Some(sense) => Some(DigitAction::CommitTranslation { index: i as usize, sense }),
                    None => Some(DigitAction::Forget { index: i as usize }),
                }
            },
        },
    }
}

pub open spec fn quoted(before: Seq<char>, text: Seq<char>, after: Seq<char>) -> Seq<char> {
    before + text + after
}

/// The notice after a candidate was forgotten.
pub open spec fn forget_notice(text: Seq<char>, forgotten: Forgotten) -> Seq<char> {
    if forgotten.user_word {
        quoted("已删除用户词「"@, text, "」"@)
    } else if forgotten.learning {
        quoted("已忘掉对「"@, text, "」的学习记录"@)
    } else {
        quoted("「"@, text, "」是词库里的词，也没有学习记录，没什么可删"@)
    }
}

/// The notice when a frequency key press changed nothing.
pub open spec fn frequency_notice(text: Seq<char>, up: bool, has_frequency: bool) -> Seq<char> {
    if !has_frequency {
        quoted("「"@, text, "」没有可以调的词频"@)
    } else if up {
        quoted("「"@, text, "」没有可以升的记录"@)
    } else {
        quoted("「"@, text, "」已经降到底了, 没有学习记录可降"@)
    }
}

/// `text` stands somewhere in `s`.
pub open spec fn mentions(s: Seq<char>, text: Seq<char>) -> bool {
    exists|i: int| 0 <= i && i + text.len() <= s.len() && #[trigger] s.subrange(i, i + text.len()) == text
}

/// Every notice about a candidate (forgotten, or its frequency left as it was) names
/// the candidate.
pub proof fn law_notices_name_the_candidate(
    text: Seq<char>,
    forgotten: Forgotten,
    up: bool,
    has_frequency: bool,
)
    ensures
        mentions(forget_notice(text, forgotten), text),
        mentions(frequency_notice(text, up, has_frequency), text),
{
    lemma_quoted_mentions("已删除用户词「"@, text, "」"@);
    lemma_quoted_mentions("已忘掉对「"@, text, "」的学习记录"@);
    lemma_quoted_mentions("「"@, text, "」是词库里的词，也没有学习记录，没什么可删"@);
    lemma_quoted_mentions("「"@, text, "」没有可以调的词频"@);
    lemma_quoted_mentions("「"@, text, "」没有可以升的记录"@);
    lemma_quoted_mentions("「"@, text, "」已经降到底了, 没有学习记录可降"@);
}

/// A shortcut configured as `none` matches nothing: with both translation keys and the
/// delete key off no modifier + digit is a shortcut, and a highlight or learn combo that
/// is off matches no key.
pub proof fn law_turned_off_shortcuts_match_nothing(router: Router, digit: int, chord: KeyModifiers, typed: char)
    ensures
        router.config.translation_keys == (None::<KeyModifiers>, None::<KeyModifiers>)
            && router.config.delete_keys is None ==> expected_digit_action(router, digit, chord) is None,
        !combo_hit(None, chord, typed),
{
}

proof fn lemma_quoted_mentions(before: Seq<char>, text: Seq<char>, after: Seq<char>)
    ensures
        mentions(quoted(before, text, after), text),
{
    let s = quoted(before, text, after);
    assert(s.subrange(before.len() as int, before.len() + text.len() as int) == text);
}

fn quote(before: &str, text: &String, after: &str) -> (r: String)
    ensures
        r@ == quoted(before@, text@, after@),
{
    let mut s = String::new();
    append(&mut s, before);
    append(&mut s, text.as_str());
    append(&mut s, after);
    s
}

/// A key combo matches a typed character under a chord: same modifiers, same letter
/// up to ASCII case.
pub open spec fn combo_hit(combo: Option<KeyCombo>, chord: KeyModifiers, typed: char) -> bool {
    match combo {
        Some(c) => KeyModifiers::spec_from_modifiers(c.modifiers) == chord && ascii_lower(c.key)
            == ascii_lower(typed),
        None => false,
    }
}

fn hits(combo: Option<KeyCombo>, chord: KeyModifiers, typed: char) -> (r: bool)
    ensures
        r == combo_hit(combo, chord, typed),
{
    match combo {
        Some(c) => KeyModifiers::from_modifiers(c.modifiers) == chord && to_ascii_lowercase(c.key)
            == to_ascii_lowercase(typed),
        None => false,
    }
}

impl Router {
    /// Cell index of slot `digit` (counted from 1) of the page holding the highlight,
    /// when that cell exists.
    pub open spec fn slot_index(self, digit: int) -> Option<int> {
        let size = self.config.page_size as int;
        let index = (self.highlight as int / size) * size + digit - 1;
        if digit >= 1 && index < self.count() {
            Some(index)
        } else {
            None
        }
    }

    /// The candidate in slot `digit` (counted from 1) of the page holding the highlight.
    pub fn candidate_on_page(&self, digit: usize) -> (r: Option<Candidate>)
        requires
            self.wf(),
        ensures
            r == match self.slot_index(digit as int) {
                Some(i) => self.cells()[i],
                None => None,
            },
    {
        match self.slot_on_page(digit) {
            Some(index) => self.layout_candidate(index),
            None => None,
        }
    }

    fn slot_on_page(&self, digit: usize) -> (r: Option<usize>)
        requires
            self.wf(),
        ensures
            crate::router::navigation::opt_int(r) == self.slot_index(digit as int),
    {
        if digit == 0 {
            return None;
        }
        let size = self.config.page_size;
        let count = self.candidate_count();
        let q = self.highlight / size;
        assert(q * size <= self.highlight) by (nonlinear_arith)
            requires
                size > 0,
                q == self.highlight / size,
        ;
        let start = q * size;
        if count == 0 || digit - 1 >= count - start {
            None
        } else {
            Some(start + (digit - 1))
        }
    }

    /// A modifier + digit during composition: which shortcut it is, if any, and the cell
    /// it aims at. `None` when the chord is no shortcut (or the shortcut is turned off):
    /// the key is then an ordinary key.
    pub fn apply_digit_shortcut(&self, digit: usize, chord: KeyModifiers) -> (r: Option<
        DigitAction,
    >)
        requires
            self.wf(),
        ensures
            r == expected_digit_action(*self, digit as int, chord),
    {
        if chord == KeyModifiers::none() {
            return None;
        }
        let (first, second) = self.config.translation_keys;
        let sense: Option<usize> = if Some(chord) == first {
            Some(0)
        } else if Some(chord) == second {
            Some(1)
        } else if Some(chord) == self.config.delete_keys {
            None
        } else {
            return None;
        };
        let index = match self.slot_on_page(digit) {
            Some(index) => index,
            None => return Some(DigitAction::Swallow),
        };
        if self.layout_candidate(index).is_none() {
            return Some(DigitAction::Swallow);
        }
        match sense {
            Some(sense) => Some(DigitAction::CommitTranslation { index, sense }),
            None => Some(DigitAction::Forget { index }),
        }
    }

    /// The engine committed (`Some`) the translation or had no such translation (`None`,
    /// the key is swallowed and the composition stays).
    pub fn translation_committed(&self, committed: Option<String>) -> (r: Effect)
        ensures
            r == match committed {
                Some(text) => Effect::Changed(Some(text)),
                None => Effect::Navigated,
            },
    {
        match committed {
            Some(text) => Effect::Changed(Some(text)),
            None => Effect::Navigated,
        }
    }

    /// The engine forgot the candidate reading `text`: the notice for the next frame says
    /// what happened, and the composition is requeried.
    pub fn note_forgotten(&mut self, text: &String, forgotten: Forgotten) -> (r: Effect)
        requires
            old(self).wf(),
        ensures
            final(self).wf(),
            r == Effect::Changed(None),
            final(self).notice matches Some(n) && n@ == forget_notice(text@, forgotten),
            *final(self) == (Router { notice: final(self).notice, ..*old(self) }),
    {
        let message = if forgotten.user_word {
            quote("已删除用户词「", text, "」")
        } else if forgotten.learning {
            quote("已忘掉对「", text, "」的学习记录")
        } else {
            quote("「", text, "」是词库里的词，也没有学习记录，没什么可删")
        };
        self.notice = Some(message);
        Effect::Changed(None)
    }

    /// A key arrives at the input server: the notice of the previous key goes (a
    /// notice lives until the next key), and the frequency key's press or release during
    /// composition sets the count preview, as [`Self::apply_adjust_modifier`] does.
    pub fn begin_key(&mut self, event: &KeyEvent, composing: bool) -> (r: Option<Effect>)
        requires
            old(self).wf(),
        ensures
            final(self).wf(),
            final(self).notice is None,
            match old(self).config.adjust_keys {
                Some(keys) if composing && spec_is_modifier_key(event.virtual_key) => {
                    &&& r == Some(Effect::Noted)
                    &&& *final(self) == (Router {
                        preview_frequency: !event.release && event.modifiers.spec_chord()
                            == keys,
                        notice: None,
                        ..*old(self)
                    })
                },
                _ => r is None && *final(self) == (Router { notice: None, ..*old(self) }),
            },
    {
        self.notice = None;
        self.apply_adjust_modifier(event, composing)
    }

    /// The frequency key pressed or released during composition: turns the count
    /// preview on while exactly that chord is held. The key itself still goes to the
    /// application (`Noted`). `None` without a frequency key, outside composition, or
    /// for a key that is no modifier.
    pub fn apply_adjust_modifier(&mut self, event: &KeyEvent, composing: bool) -> (r: Option<
        Effect,
    >)
        requires
            old(self).wf(),
        ensures
            final(self).wf(),
            match old(self).config.adjust_keys {
                Some(keys) if composing && spec_is_modifier_key(event.virtual_key) => {
                    &&& r == Some(Effect::Noted)
                    &&& *final(self) == (Router {
                        preview_frequency: !event.release && event.modifiers.spec_chord()
                            == keys,
                        ..*old(self)
                    })
                },
                _ => r is None && *final(self) == *old(self),
            },
    {
        let keys = match self.config.adjust_keys {
            Some(keys) => keys,
            None => return None,
        };
        if !composing || !is_modifier_key(event.virtual_key) {
            return None;
        }
        let preview = !event.release && event.modifiers.chord() == keys;
        self.preview_frequency = preview;
        Some(Effect::Noted)
    }

    /// The highlight keys (`[shortcut] highlight_down` / `highlight_up`): like ↓ / ↑.
    /// `None` for a key that is neither.
    pub fn apply_highlight_shortcut(&mut self, event: &KeyEvent) -> (r: Option<Effect>)
        requires
            old(self).wf(),
        ensures
            final(self).wf(),
            match event.character {
                None => r is None && *final(self) == *old(self),
                Some(typed) => {
                    let chord = event.modifiers.spec_chord();
                    if combo_hit(old(self).config.highlight_down, chord, typed) {
                        r == Some(Effect::Navigated) && *final(self) == old(self).moved(1)
                    } else if combo_hit(old(self).config.highlight_up, chord, typed) {
                        r == Some(Effect::Navigated) && *final(self) == old(self).moved(-1)
                    } else {
                        r is None && *final(self) == *old(self)
                    }
                },
            },
    {
        let typed = match event.character {
            Some(c) => c,
            None => return None,
        };
        let chord = event.modifiers.chord();
        let delta: isize = if hits(self.config.highlight_down, chord, typed) {
            1
        } else if hits(self.config.highlight_up, chord, typed) {
            -1
        } else {
            return None;
        };
        self.move_highlight(delta);
        Some(Effect::Navigated)
    }

    /// Where a key goes (see [`route_spec`]); `composing` says whether letters are being
    /// composed.
    pub fn key_route(&self, event: &KeyEvent, composing: bool) -> (r: KeyRoute)
        requires
            self.wf(),
        ensures
            r == route_spec(*self, *event, composing),
    {
        if event.release {
            return KeyRoute::Pass;
        }
        let chord = event.modifiers.chord();
        if composing {
            if let Some(d) = digit_key(event.virtual_key) {
                if let Some(action) = self.apply_digit_shortcut(d, chord) {
                    return KeyRoute::Digit(action);
                }
            }
            let frequency = self.frequency_target(event);
            proof {
                assert(frequency == frequency_spec(*self, *event));
            }
            if let Some(action) = frequency {
                return KeyRoute::Frequency(action);
            }
            if let Some(typed) = event.character {
                if hits(self.config.highlight_down, chord, typed) {
                    return KeyRoute::Move(1);
                }
                if hits(self.config.highlight_up, chord, typed) {
                    return KeyRoute::Move(-1);
                }
            }
            if !event.modifiers.has_command_key() {
                if event.virtual_key == DOWN || event.virtual_key == UP {
                    return KeyRoute::Move(
                        if event.virtual_key == DOWN {
                            1
                        } else {
                            -1
                        },
                    );
                }
                if event.virtual_key == NEXT || event.virtual_key == PRIOR {
                    return KeyRoute::Page(
                        if event.virtual_key == NEXT {
                            1
                        } else {
                            -1
                        },
                    );
                }
            }
        }
        if event.modifiers.has_command_key() {
            return KeyRoute::Pass;
        }
        match event.character {
            Some(c) => KeyRoute::Type(c),
            None => KeyRoute::Pass,
        }
    }

    /// Frequency key + K / J: the highlighted candidate and the direction, or `Swallow`
    /// when no candidate is highlighted. `None` when the chord is not the frequency key
    /// or the letter is not J / K.
    pub fn frequency_target(&self, event: &KeyEvent) -> (r: Option<FrequencyAction>)
        requires
            self.wf(),
        ensures
            match self.config.adjust_keys {
                Some(keys) if event.modifiers.spec_chord() == keys => match spec_adjust_key(
                    event.virtual_key,
                ) {
                    Some(up) => match self.layout_cell(self.highlight as int) {
                        Some(c) => r matches Some(FrequencyAction::Adjust { candidate, up: u })
                            && candidate == c && u == up,
                        None => r matches Some(FrequencyAction::Swallow),
                    },
                    None => r is None,
                },
                _ => r is None,
            },
    {
        let keys = match self.config.adjust_keys {
            Some(keys) => keys,
            None => return None,
        };
        if event.modifiers.chord() != keys {
            return None;
        }
        let up = match adjust_key(event.virtual_key) {
            Some(up) => up,
            None => return None,
        };
        match self.layout_candidate(self.highlight) {
            Some(candidate) => Some(FrequencyAction::Adjust { candidate, up }),
            None => Some(FrequencyAction::Swallow),
        }
    }

    /// The engine moved (or could not move) the candidate reading `text`; `composition`
    /// is the requery. A notice says why nothing changed; the composition is rebuilt and
    /// the highlight goes back to the same word, so repeated K / J keep adjusting it.
    pub fn frequency_adjusted(
        &mut self,
        text: &String,
        up: bool,
        changed: bool,
        has_frequency: bool,
        composition: Composition,
    ) -> (r: Effect)
        requires
            old(self).wf(),
        ensures
            final(self).wf(),
            r == Effect::Navigated,
            changed ==> final(self).notice is None,
            !changed ==> (final(self).notice matches Some(n) && n@ == frequency_notice(
                text@,
                up,
                has_frequency,
            )),
            ({
                let rebuilt = Router { notice: final(self).notice, ..*old(self) }.recomposed(
                    composition,
                );
                &&& final(self).cells() == rebuilt.cells()
                &&& *final(self) == Router { highlight: final(self).highlight, ..rebuilt }
                &&& (exists|i: int|
                    0 <= i < rebuilt.count() && reads(#[trigger] rebuilt.cells()[i], text@))
                    ==> reads(final(self).cells()[final(self).highlight as int], text@)
                    && forall|k: int|
                    0 <= k < final(self).highlight ==> !reads(#[trigger] rebuilt.cells()[k], text@)
                &&& (forall|i: int|
                    0 <= i < rebuilt.count() ==> !reads(#[trigger] rebuilt.cells()[i], text@))
                    ==> final(self).highlight == rebuilt.highlight
            }),
    {
        let message = if changed {
            None
        } else if !has_frequency {
            Some(quote("「", text, "」没有可以调的词频"))
        } else if up {
            Some(quote("「", text, "」没有可以升的记录"))
        } else {
            Some(quote("「", text, "」已经降到底了, 没有学习记录可降"))
        };
        self.notice = message;
        self.recompose(composition);
        if let Some(index) = self.index_of_candidate(text) {
            self.highlight = index;
        }
        Effect::Navigated
    }
}

/// During composition the page keys turn the page, Page Up back and Page Down forward,
/// when no Ctrl, Alt or Win is held and the key is no highlight combo: the two turn in
/// opposite directions.
pub proof fn law_page_keys_turn_opposite_ways(router: Router, event: KeyEvent)
    requires
        !event.release,
        !event.modifiers.spec_has_command_key(),
        event.character is None,
    ensures
        event.virtual_key == PRIOR ==> route_spec(router, event, true) == KeyRoute::Page(-1isize),
        event.virtual_key == NEXT ==> route_spec(router, event, true) == KeyRoute::Page(1isize),
{
}

/// During composition ↓ moves the highlight one candidate on and ↑ one back, under the
/// same conditions.
pub proof fn law_arrow_keys_move_opposite_ways(router: Router, event: KeyEvent)
    requires
        !event.release,
        !event.modifiers.spec_has_command_key(),
        event.character is None,
    ensures
        event.virtual_key == DOWN ==> route_spec(router, event, true) == KeyRoute::Move(1isize),
        event.virtual_key == UP ==> route_spec(router, event, true) == KeyRoute::Move(-1isize),
{
}

} // verus!
