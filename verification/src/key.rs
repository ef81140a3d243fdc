//! A key press as the dispatcher sees it.

use crate::text;
use vstd::prelude::*;

verus! {

/// The modifiers and input modes in force when a key went down.
#[derive(Clone, Copy, Debug, PartialEq, Eq, Structural)]
pub struct KeyModifiers {
    /// Ctrl is held.
    pub ctrl: bool,
    /// Alt is held.
    pub alt: bool,
    /// A Windows key is held.
    pub win: bool,
    /// Shift is held.
    pub shift: bool,
    /// Caps Lock is lit.
    pub caps: bool,
    /// The input method is in its persistent English mode.
    pub english_mode: bool,
}

impl KeyModifiers {
    /// Ctrl, Alt or a Windows key is held.
    pub open spec fn command(self) -> bool {
        self.ctrl || self.alt || self.win
    }

    /// Caps Lock or the English mode makes the key type English.
    pub open spec fn types_english(self) -> bool {
        self.caps || self.english_mode
    }

    /// Tells whether Ctrl, Alt or a Windows key is held.
    pub fn has_command_key(&self) -> (r: bool)
        ensures
            r == self.command(),
    {
        self.ctrl || self.alt || self.win
    }

    /// Tells whether the key types English.
    pub fn english(&self) -> (r: bool)
        ensures
            r == self.types_english(),
    {
        self.caps || self.english_mode
    }
}

impl Default for KeyModifiers {
    /// No modifier, Caps Lock dark, Chinese mode.
    fn default() -> (m: Self)
        ensures
            !m.command(),
            !m.types_english(),
            !m.shift,
    {
        KeyModifiers {
            ctrl: false,
            alt: false,
            win: false,
            shift: false,
            caps: false,
            english_mode: false,
        }
    }
}

/// A key press, with what the keyboard layout tells of it.
#[derive(Clone, Copy, Debug, PartialEq, Eq, Structural)]
pub struct KeyEvent {
    /// The virtual-key code.
    pub virtual_key: u32,
    /// The character that the key types, if it types one.
    pub character: Option<char>,
    /// The modifiers and modes.
    pub modifiers: KeyModifiers,
    /// The digit of a key that can be part of a digit shortcut, whatever the modifiers.
    pub digit_key: Option<usize>,
    /// The digit that the key stands for when it picks a candidate; it counts from one.
    pub digit: Option<usize>,
    /// The key is on the numeric keypad.
    pub keypad: bool,
    /// The number of pages to turn, where the key is a page key.
    pub page_step: Option<i32>,
}

impl KeyEvent {
    /// Candidate digits count from one.
    pub open spec fn well_formed(self) -> bool {
        self.digit is Some ==> self.digit->0 >= 1
    }

    /// The printable character of the key: its character, unless that is a control character.
    pub open spec fn printable(self) -> Option<char> {
        match self.character {
            Some(c) => if text::control(c) {
                None
            } else {
                Some(c)
            },
            None => None,
        }
    }

    /// The character of the key, NUL for a key that types none.
    pub open spec fn typed(self) -> char {
        match self.character {
            Some(c) => c,
            None => '\0',
        }
    }

    /// The key is one for text: it has a printable character and no command key is held with it.
    pub open spec fn is_text(self) -> bool {
        self.printable() is Some && !self.modifiers.command()
    }

    /// The printable character of the key.
    pub fn printable_character(&self) -> (r: Option<char>)
        ensures
            r == self.printable(),
    {
        match self.character {
            Some(c) => {
                if text::is_control(c) {
                    None
                } else {
                    Some(c)
                }
            },
            None => None,
        }
    }

    /// The character of the key, NUL for a key that types none.
    pub fn typed_character(&self) -> (r: char)
        ensures
            r == self.typed(),
    {
        match self.character {
            Some(c) => c,
            None => '\0',
        }
    }
}

/// A command key is Ctrl, Alt or a Windows key, and English is typed under Caps Lock or in English
/// mode: neither depends on any other modifier.
pub proof fn law_modifiers_are_told_apart(m: KeyModifiers)
    ensures
        !m.command() <==> !m.ctrl && !m.alt && !m.win,
        !m.types_english() <==> !m.caps && !m.english_mode,
{
}

/// A key types its character if it has one, and NUL else. The character is printable exactly if its
/// code point is from the space to `~`, or beyond U+009F.
pub proof fn law_keys_type_their_character(event: KeyEvent, c: char)
    ensures
        event.character == Some(c) ==> event.typed() == c,
        event.character is None ==> event.typed() as u32 == 0 && event.printable() is None,
        event.character == Some(c) && (0x20 <= (c as u32) <= 0x7e || 0xa0 <= (c as u32))
            ==> event.printable() == Some(c),
        event.character == Some(c) && ((c as u32) < 0x20 || 0x7e < (c as u32) < 0xa0)
            ==> event.printable() is None,
{
}

} // verus!
