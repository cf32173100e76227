//! Wayland key presses, in the shared keymap's terms.
//!
//! What a key means is decided once, in the shared keymap, for every
//! backend; this only names the key. Keys that produce no character are
//! named by keysym; every other key by the text the layout produced,
//! lower-cased so shift does not change what it does.
use vstd::prelude::*;
use crate::keymap::Key;
use crate::text::{control, is_control, lower, lower_char};

verus! {

/// `XK_Escape`, from `keysymdef.h`.
pub const ESCAPE: u32 = 0xff1b;
/// `XK_BackSpace`.
pub const BACKSPACE: u32 = 0xff08;
/// `XK_Delete`.
pub const DELETE: u32 = 0xffff;
/// `XK_KP_Delete`.
pub const KP_DELETE: u32 = 0xff9f;
/// `XK_Return`.
pub const RETURN: u32 = 0xff0d;
/// `XK_KP_Enter`.
pub const KP_ENTER: u32 = 0xff8d;

/// The key a press names: by keysym for the keys that type nothing, by the
/// first character of its text otherwise, unless that is a control
/// character.
pub open spec fn key_named(keysym: u32, text: Option<Seq<char>>) -> Option<Key> {
    if keysym == ESCAPE {
        Some(Key::Escape)
    } else if keysym == BACKSPACE {
        Some(Key::Backspace)
    } else if keysym == DELETE || keysym == KP_DELETE {
        Some(Key::Delete)
    } else if keysym == RETURN || keysym == KP_ENTER {
        Some(Key::Enter)
    } else {
        match text {
            Some(t) => if t.len() > 0 && !is_control(t[0]) { Some(Key::Char(lower(t[0]))) } else { None },
            None => None,
        }
    }
}

/// The key a press names, or `None` for one the keymap has no use for.
pub fn key_for(keysym: u32, text: Option<&str>) -> (key: Option<Key>)
    ensures
        key == key_named(keysym, match text {
            Some(t) => Some(t@),
            None => None,
        }),
{
    if keysym == ESCAPE {
        Some(Key::Escape)
    } else if keysym == BACKSPACE {
        Some(Key::Backspace)
    } else if keysym == DELETE || keysym == KP_DELETE {
        Some(Key::Delete)
    } else if keysym == RETURN || keysym == KP_ENTER {
        Some(Key::Enter)
    } else {
        match text {
            Some(t) => {
                if t.unicode_len() == 0 {
                    return None;
                }
                let first = t.get_char(0);
                if control(first) {
                    None
                } else {
                    Some(Key::Char(lower_char(first)))
                }
            },
            None => None,
        }
    }
}

} // verus!
