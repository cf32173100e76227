//! What each key means, for every backend.
//!
//! Each adapter translates its native key representation into [`Key`]; the
//! table here decides the rest, so a binding added here reaches every
//! backend at once.
//!
//! The Windows backend keeps its own table of virtual-key codes, held to
//! this one key by key, with two differences made on purpose: `0`, which
//! resets zoom here, is unbound there, and `t`, which opens the window menu
//! here, is accepted and inert there (see `windows::keys`).
use vstd::prelude::*;
use crate::tool::{Action, Tool};

verus! {

/// A key press, with the platform's spelling removed.
#[derive(Clone, Copy, Debug, PartialEq, Eq, Structural)]
pub enum Key {
    /// Lower-cased by the adapter, so shift does not change what a key does.
    Char(char),
    Escape,
    Backspace,
    Enter,
    Delete,
}

impl Key {
    /// The character this key produces, if it produces one.
    pub fn as_char(self) -> (c: Option<char>)
        ensures
            c == (match self {
                Key::Char(c) => Some(c),
                _ => None::<char>,
            }),
    {
        match self {
            Key::Char(c) => Some(c),
            _ => None,
        }
    }
}

/// What a key means while the text editor is open: only the keys that cannot
/// be characters keep a meaning; everything else is typed.
pub open spec fn editing_binding(key: Key) -> Option<Action> {
    match key {
        Key::Escape => Some(Action::Escape),
        Key::Backspace => Some(Action::BackspaceText),
        Key::Enter => Some(Action::NewlineText),
        Key::Char(_) | Key::Delete => None,
    }
}

/// What a character key means outside the text editor.
pub open spec fn char_binding(c: char) -> Option<Action> {
    if c == 'd' {
        Some(Action::EnterDraw)
    } else if c == 'p' {
        Some(Action::ToggleDraw)
    } else if c == 'h' {
        Some(Action::ToggleVisibility)
    } else if c == 'g' {
        Some(Action::TogglePark)
    } else if c == 'z' {
        Some(Action::CycleZoom)
    } else if c == '0' {
        Some(Action::ZoomOff)
    } else if c == 'w' {
        Some(Action::Save)
    } else if c == 'o' {
        Some(Action::Load)
    } else if c == 'u' {
        Some(Action::Undo)
    } else if c == 'r' {
        Some(Action::Redo)
    } else if c == 'x' {
        Some(Action::Clear)
    } else if c == 'c' {
        Some(Action::CycleColor)
    } else if c == 't' {
        Some(Action::ShowWindowMenu)
    } else if c == '1' {
        Some(Action::SelectTool(Tool::Pen))
    } else if c == '2' {
        Some(Action::SelectTool(Tool::Highlighter))
    } else if c == '3' {
        Some(Action::SelectTool(Tool::Line))
    } else if c == '4' {
        Some(Action::SelectTool(Tool::Arrow))
    } else if c == '5' {
        Some(Action::SelectTool(Tool::Rectangle))
    } else if c == '6' {
        Some(Action::SelectTool(Tool::Ellipse))
    } else if c == '7' || c == 'e' {
        Some(Action::SelectTool(Tool::Eraser))
    } else if c == '8' || c == 's' {
        Some(Action::SelectTool(Tool::Select))
    } else if c == '9' {
        Some(Action::SelectTool(Tool::Text))
    } else if c == '[' {
        Some(Action::AdjustWidth(-1i32))
    } else if c == ']' {
        Some(Action::AdjustWidth(1i32))
    } else if c == '-' {
        Some(Action::AdjustOpacity(-1i32))
    } else if c == '=' || c == '+' {
        Some(Action::AdjustOpacity(1i32))
    } else {
        None
    }
}

/// What a key means the rest of the time. Quitting is not here: it is not
/// something the controller can be asked to do.
pub open spec fn command_binding(key: Key) -> Option<Action> {
    match key {
        Key::Escape => Some(Action::Escape),
        Key::Delete | Key::Backspace => Some(Action::DeleteSelection),
        Key::Enter => None,
        Key::Char(c) => char_binding(c),
    }
}

/// What a key means while the text editor is open. Without this, typing
/// "quit" into a text box would quit. Forward delete is deliberately unbound:
/// mapping it to deleting the selection would delete the object being edited.
pub fn editing(key: Key) -> (action: Option<Action>)
    ensures
        action == editing_binding(key),
{
    match key {
        Key::Escape => Some(Action::Escape),
        Key::Backspace => Some(Action::BackspaceText),
        Key::Enter => Some(Action::NewlineText),
        Key::Char(_) | Key::Delete => None,
    }
}

/// What a key means outside the text editor.
pub fn command(key: Key) -> (action: Option<Action>)
    ensures
        action == command_binding(key),
{
    let c = match key {
        Key::Escape => {
            return Some(Action::Escape);
        },
        Key::Delete | Key::Backspace => {
            return Some(Action::DeleteSelection);
        },
        Key::Enter => {
            return None;
        },
        Key::Char(c) => c,
    };
    match c {
        'd' => Some(Action::EnterDraw),
        'p' => Some(Action::ToggleDraw),
        'h' => Some(Action::ToggleVisibility),
        'g' => Some(Action::TogglePark),
        'z' => Some(Action::CycleZoom),
        '0' => Some(Action::ZoomOff),
        'w' => Some(Action::Save),
        'o' => Some(Action::Load),
        'u' => Some(Action::Undo),
        'r' => Some(Action::Redo),
        'x' => Some(Action::Clear),
        'c' => Some(Action::CycleColor),
        't' => Some(Action::ShowWindowMenu),
        '1' => Some(Action::SelectTool(Tool::Pen)),
        '2' => Some(Action::SelectTool(Tool::Highlighter)),
        '3' => Some(Action::SelectTool(Tool::Line)),
        '4' => Some(Action::SelectTool(Tool::Arrow)),
        '5' => Some(Action::SelectTool(Tool::Rectangle)),
        '6' => Some(Action::SelectTool(Tool::Ellipse)),
        '7' | 'e' => Some(Action::SelectTool(Tool::Eraser)),
        '8' | 's' => Some(Action::SelectTool(Tool::Select)),
        '9' => Some(Action::SelectTool(Tool::Text)),
        '[' => Some(Action::AdjustWidth(-1)),
        ']' => Some(Action::AdjustWidth(1)),
        '-' => Some(Action::AdjustOpacity(-1)),
        '=' | '+' => Some(Action::AdjustOpacity(1)),
        _ => None,
    }
}

/// Whether this key ends the program. Separate from [`command`] because
/// quitting is the adapter's to perform.
pub fn quits(key: Key) -> (quit: bool)
    ensures
        quit == (key == Key::Char('q')),
{
    match key {
        Key::Char(c) => c == 'q',
        _ => false,
    }
}

/// No key both quits and acts: the quitting key has no binding, in the
/// editor or outside it.
pub proof fn law_quitting_is_not_an_action()
    ensures
        command_binding(Key::Char('q')) is None,
        editing_binding(Key::Char('q')) is None,
{
}

/// While the text editor is open every character is text: no character key
/// has a meaning there.
pub proof fn law_characters_are_text_while_editing(c: char)
    ensures
        editing_binding(Key::Char(c)) is None,
{
}

} // verus!
