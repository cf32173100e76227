//! AppKit characters to the shared key vocabulary.
//!
//! AppKit reports a key press as the characters it produces, ignoring
//! modifiers. For letters and digits that is the character itself; the keys
//! that are not characters arrive as private-use code points or ASCII control
//! characters, and those are the ones named here. What a key then means is
//! the shared keymap's decision.
pub mod code;

use vstd::prelude::*;
use crate::keymap::Key;
use crate::text::{control, is_control, lower, lower_char};

verus! {

/// The key an AppKit character names, if any.
pub open spec fn translated(c: char) -> Option<Key> {
    if c == code::ESCAPE {
        Some(Key::Escape)
    } else if c == code::DELETE_BACKWARD || c == code::BACKSPACE {
        Some(Key::Backspace)
    } else if c == code::DELETE_FORWARD {
        Some(Key::Delete)
    } else if c == code::CARRIAGE_RETURN || c == code::ENTER || c == code::NEWLINE {
        Some(Key::Enter)
    } else if '\u{F700}' <= c && c <= '\u{F8FF}' {
        None
    } else if is_control(c) {
        None
    } else {
        Some(Key::Char(lower(c)))
    }
}

/// Turns a character into a key, lower-cased so shift cannot change what a
/// key does. Function keys and arrows live in the private use area and are
/// not let through: they would arrive as arbitrary characters.
pub fn translate(character: char) -> (key: Option<Key>)
    ensures
        key == translated(character),
{
    if character == code::ESCAPE {
        Some(Key::Escape)
    } else if character == code::DELETE_BACKWARD || character == code::BACKSPACE {
        Some(Key::Backspace)
    } else if character == code::DELETE_FORWARD {
        Some(Key::Delete)
    } else if character == code::CARRIAGE_RETURN || character == code::ENTER || character == code::NEWLINE {
        Some(Key::Enter)
    } else if '\u{F700}' <= character && character <= '\u{F8FF}' {
        None
    } else {
        if control(character) {
            None
        } else {
            Some(Key::Char(lower_char(character)))
        }
    }
}

/// Shift does not change what a key does: an upper-case letter names the
/// same key as its lower-case one.
pub proof fn law_shift_does_not_change_a_key(c: char)
    requires
        'A' <= c <= 'Z',
    ensures
        translated(c) == translated(lower(c)),
        translated(c) == Some(Key::Char(lower(c))),
{
    assert('a' <= lower(c) <= 'z');
}

} // verus!
