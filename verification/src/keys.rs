//! Key events as the front ends report them, modifier chords, and the virtual key codes
//! that the dispatchers recognise.

use vstd::prelude::*;

verus! {

pub const BACK: u32 = 0x08;
pub const DELETE: u32 = 0x2E;
pub const TAB: u32 = 0x09;
pub const RETURN: u32 = 0x0D;
pub const ESCAPE: u32 = 0x1B;
pub const PRIOR: u32 = 0x21;
pub const NEXT: u32 = 0x22;
pub const END: u32 = 0x23;
pub const HOME: u32 = 0x24;
pub const LEFT: u32 = 0x25;
pub const UP: u32 = 0x26;
pub const RIGHT: u32 = 0x27;
pub const DOWN: u32 = 0x28;

/// Modifier state that travels with a key event. `caps` and `english_mode` are states,
/// not chord members.
#[derive(Debug, Clone, Copy, PartialEq, Eq, Structural, Default)]
pub struct KeyModifiers {
    pub ctrl: bool,
    pub shift: bool,
    pub alt: bool,
    pub win: bool,
    pub caps: bool,
    pub english_mode: bool,
}

/// Modifier set as the configuration writes it (`control+option`).
#[derive(Debug, Clone, Copy, PartialEq, Eq, Structural, Default)]
pub struct Modifiers {
    pub option: bool,
    pub shift: bool,
    pub control: bool,
    pub command: bool,
}

/// A configured combination: modifiers plus one character key.
#[derive(Debug, Clone, Copy, PartialEq, Eq, Structural)]
pub struct KeyCombo {
    pub modifiers: Modifiers,
    pub key: char,
}

/// One key press or release reported by a front end.
#[derive(Debug, Clone, Copy, PartialEq, Eq, Structural)]
pub struct KeyEvent {
    pub virtual_key: u32,
    pub character: Option<char>,
    pub modifiers: KeyModifiers,
    pub release: bool,
}

impl KeyModifiers {
    pub open spec fn spec_chord(self) -> KeyModifiers {
        KeyModifiers { caps: false, english_mode: false, ..self }
    }

    /// The physical chord: the modifier keys held, without the Caps Lock and
    /// Chinese / English state bits.
    pub fn chord(&self) -> (r: KeyModifiers)
        ensures
            r == self.spec_chord(),
    {
        KeyModifiers { caps: false, english_mode: false, ..*self }
    }

    pub open spec fn spec_has_command_key(self) -> bool {
        self.ctrl || self.alt || self.win
    }

    /// Ctrl, Alt or Win is held: the key belongs to an application shortcut.
    pub fn has_command_key(&self) -> (r: bool)
        ensures
            r == self.spec_has_command_key(),
    {
        self.ctrl || self.alt || self.win
    }

    pub open spec fn spec_from_modifiers(m: Modifiers) -> KeyModifiers {
        KeyModifiers {
            ctrl: m.control,
            shift: m.shift,
            alt: m.option,
            win: m.command,
            caps: false,
            english_mode: false,
        }
    }

    /// The chord that a configured modifier set stands for.
    pub fn from_modifiers(m: Modifiers) -> (r: KeyModifiers)
        ensures
            r == Self::spec_from_modifiers(m),
    {
        KeyModifiers {
            ctrl: m.control,
            shift: m.shift,
            alt: m.option,
            win: m.command,
            caps: false,
            english_mode: false,
        }
    }

    pub open spec fn is_none(self) -> bool {
        self == KeyModifiers::default_spec()
    }

    pub open spec fn default_spec() -> KeyModifiers {
        KeyModifiers {
            ctrl: false,
            shift: false,
            alt: false,
            win: false,
            caps: false,
            english_mode: false,
        }
    }

    /// No modifier and no state bit at all.
    pub fn none() -> (r: KeyModifiers)
        ensures
            r == Self::default_spec(),
    {
        KeyModifiers {
            ctrl: false,
            shift: false,
            alt: false,
            win: false,
            caps: false,
            english_mode: false,
        }
    }
}

impl Modifiers {
    pub open spec fn spec_is_empty(self) -> bool {
        !self.option && !self.shift && !self.control && !self.command
    }

    pub fn is_empty(&self) -> (r: bool)
        ensures
            r == self.spec_is_empty(),
    {
        !self.option && !self.shift && !self.control && !self.command
    }
}

impl KeyEvent {
    pub fn new(virtual_key: u32, character: Option<char>, modifiers: KeyModifiers) -> (r: KeyEvent)
        ensures
            r == (KeyEvent { virtual_key, character, modifiers, release: false }),
    {
        KeyEvent { virtual_key, character, modifiers, release: false }
    }

    /// The same key, reported as a release.
    pub fn released(self) -> (r: KeyEvent)
        ensures
            r == (KeyEvent { release: true, ..self }),
    {
        KeyEvent { release: true, ..self }
    }
}

/// `c` folded to lower case when it is an ASCII capital.
pub open spec fn ascii_lower(c: char) -> char {
    if 'A' <= c && c <= 'Z' {
        ((c as u32) + 32) as char
    } else {
        c
    }
}

pub fn to_ascii_lowercase(c: char) -> (r: char)
    ensures
        r == ascii_lower(c),
{
    if 'A' <= c && c <= 'Z' {
        let code: u32 = c as u32 + 32;
        assert(0x61 <= code <= 0x7a);
        char_from_ascii(code)
    } else {
        c
    }
}

/// `c` raised to upper case when it is an ASCII small letter.
pub open spec fn ascii_upper(c: char) -> char {
    if 'a' <= c && c <= 'z' {
        ((c as u32) - 32) as char
    } else {
        c
    }
}

pub fn to_ascii_uppercase(c: char) -> (r: char)
    ensures
        r == ascii_upper(c),
{
    if 'a' <= c && c <= 'z' {
        let code: u32 = c as u32 - 32;
        assert(0x41 <= code <= 0x5a);
        char_from_ascii(code)
    } else {
        c
    }
}

fn char_from_ascii(code: u32) -> (r: char)
    requires
        code < 0x80,
    ensures
        r == code as char,
        r as u32 == code,
{
    let b: u8 = code as u8;
    b as char
}

pub open spec fn is_ascii_alpha(c: char) -> bool {
    ('a' <= c && c <= 'z') || ('A' <= c && c <= 'Z')
}

pub fn is_ascii_alphabetic(c: char) -> (r: bool)
    ensures
        r == is_ascii_alpha(c),
{
    ('a' <= c && c <= 'z') || ('A' <= c && c <= 'Z')
}

pub open spec fn is_ascii_alnum(c: char) -> bool {
    is_ascii_alpha(c) || ('0' <= c && c <= '9')
}

/// Paging key pair `(previous, next)`: -1 for the first, +1 for the second.
pub open spec fn spec_page_key(event: KeyEvent, page_keys: (char, char)) -> Option<int> {
    match event.character {
        None => None,
        Some(c) => if c == page_keys.0 {
            Some(-1)
        } else if c == page_keys.1 {
            Some(1)
        } else {
            None
        },
    }
}

pub fn page_key(event: &KeyEvent, page_keys: (char, char)) -> (r: Option<isize>)
    ensures
        r matches Some(step) ==> spec_page_key(*event, page_keys) == Some(step as int),
        r is None <==> spec_page_key(*event, page_keys) is None,
{
    let c = match event.character {
        Some(c) => c,
        None => return None,
    };
    if c == page_keys.0 {
        Some(-1)
    } else if c == page_keys.1 {
        Some(1)
    } else {
        None
    }
}

pub open spec fn spec_digit_key(virtual_key: u32) -> Option<usize> {
    if 0x31 <= virtual_key && virtual_key <= 0x39 {
        Some((virtual_key - 0x30) as usize)
    } else {
        None
    }
}

/// Main-row digit keys 1–9 by key code, whatever modifiers are held (the
/// modifier + digit shortcuts go by position).
pub fn digit_key(virtual_key: u32) -> (r: Option<usize>)
    ensures
        r == spec_digit_key(virtual_key),
{
    if 0x31 <= virtual_key && virtual_key <= 0x39 {
        Some((virtual_key - 0x30) as usize)
    } else {
        None
    }
}

pub open spec fn spec_digit(event: KeyEvent) -> Option<usize> {
    match event.character {
        Some(c) => if '1' <= c && c <= '9' {
            Some((c as u32 - '0' as u32) as usize)
        } else {
            None
        },
        None => spec_digit_key(event.virtual_key),
    }
}

/// The digit 1–9 that the key typed (selects a candidate). Goes by the character,
/// so the `!@#` that Shift makes of them do not count; without a character, by key code.
pub fn digit(event: &KeyEvent) -> (r: Option<usize>)
    ensures
        r == spec_digit(*event),
{
    match event.character {
        Some(c) => if '1' <= c && c <= '9' {
            Some((c as u32 - '0' as u32) as usize)
        } else {
            None
        },
        None => digit_key(event.virtual_key),
    }
}

pub open spec fn spec_is_keypad(virtual_key: u32) -> bool {
    0x60 <= virtual_key && virtual_key <= 0x6F
}

/// The key comes from the numeric keypad (its operators stay half width).
pub fn is_keypad(virtual_key: u32) -> (r: bool)
    ensures
        r == spec_is_keypad(virtual_key),
{
    0x60 <= virtual_key && virtual_key <= 0x6F
}

pub open spec fn spec_adjust_key(virtual_key: u32) -> Option<bool> {
    if virtual_key == 0x4B {
        Some(true)
    } else if virtual_key == 0x4A {
        Some(false)
    } else {
        None
    }
}

/// The J / K keys of the frequency shortcut: K (`true`) raises, J (`false`) lowers.
pub fn adjust_key(virtual_key: u32) -> (r: Option<bool>)
    ensures
        r == spec_adjust_key(virtual_key),
{
    if virtual_key == 0x4B {
        Some(true)
    } else if virtual_key == 0x4A {
        Some(false)
    } else {
        None
    }
}

pub open spec fn spec_is_modifier_key(virtual_key: u32) -> bool {
    ||| virtual_key == 0x10 || virtual_key == 0x11 || virtual_key == 0x12
    ||| 0xA0 <= virtual_key && virtual_key <= 0xA5
    ||| virtual_key == 0x5B || virtual_key == 0x5C
    ||| 0xFFE1 <= virtual_key && virtual_key <= 0xFFE4
    ||| 0xFFE7 <= virtual_key && virtual_key <= 0xFFEE
}

/// Physical codes of modifier keys: the Windows virtual keys, plus the X11 keysyms that
/// the Fcitx plugin passes on unchanged for Ctrl / Alt / Super / Hyper.
pub fn is_modifier_key(virtual_key: u32) -> (r: bool)
    ensures
        r == spec_is_modifier_key(virtual_key),
{
    virtual_key == 0x10 || virtual_key == 0x11 || virtual_key == 0x12 || (0xA0 <= virtual_key
        && virtual_key <= 0xA5) || virtual_key == 0x5B || virtual_key == 0x5C || (0xFFE1
        <= virtual_key && virtual_key <= 0xFFE4) || (0xFFE7 <= virtual_key && virtual_key
        <= 0xFFEE)
}

/// The modifier keys' codes count as modifier keys: Windows' Shift, Ctrl and Alt (generic,
/// left and right) and the Windows keys, and the X11 keysyms that Fcitx passes for Shift,
/// Ctrl, Alt, Meta, Super and Hyper; letters, digits and the arrows do not.
pub proof fn law_modifier_key_codes(vk: u32)
    ensures
        (0x10 <= vk <= 0x12 || 0xA0 <= vk <= 0xA5 || vk == 0x5B || vk == 0x5C) ==> spec_is_modifier_key(
            vk,
        ),
        0xFFE1 <= vk <= 0xFFE4 ==> spec_is_modifier_key(vk),
        0xFFE7 <= vk <= 0xFFEE ==> spec_is_modifier_key(vk),
        (0x30 <= vk <= 0x39 || 0x41 <= vk <= 0x5A || 0x25 <= vk <= 0x28) ==> !spec_is_modifier_key(
            vk,
        ),
{
}

} // verus!
