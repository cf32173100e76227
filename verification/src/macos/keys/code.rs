//! The code points AppKit uses for keys that are not characters, from
//! `NSText.h` and `NSEvent.h`. Part of a published interface.
use vstd::prelude::*;

verus! {

/// Rare: most keyboards send `DELETE_BACKWARD` instead.
pub const BACKSPACE: char = '\u{0008}';
/// What Return actually sends.
pub const CARRIAGE_RETURN: char = '\u{000D}';
/// The numeric keypad's Enter.
pub const ENTER: char = '\u{0003}';
/// Some input paths send a newline instead of a carriage return.
pub const NEWLINE: char = '\u{000A}';
pub const ESCAPE: char = '\u{001B}';
/// The key labelled Delete on a Mac, which deletes backwards: Backspace
/// everywhere else.
pub const DELETE_BACKWARD: char = '\u{007F}';
/// Forward delete: fn-Delete, or Del on a full keyboard.
pub const DELETE_FORWARD: char = '\u{F728}';

} // verus!
