//! Virtual-key codes to actions.
//!
//! A key-down message hands over a virtual key code, a `u32`, and what that
//! code means is this project's decision. The bindings are the shared
//! table's (`keymap`, which the Wayland adapter uses), so nobody moving
//! between the two has anything to relearn; `law_letters_and_digits_match_the_shared_table`
//! holds the two together key by key.
//!
//! Two keys differ on purpose. `0`, which resets zoom in the shared table,
//! is left unbound here, as this table has always promised, until Windows
//! zoom has a reset of its own. `t`, the window-menu key, is accepted and
//! does nothing (`is_window_menu`): the overlay is already top-most.
pub mod vk;

use vstd::prelude::*;
use crate::tool::{Action, Tool};

verus! {

/// What a key means while the text editor is open: only the three keys that
/// cannot be characters keep a meaning; anything else is typed text.
pub open spec fn editing_binding(virtual_key: u32) -> Option<Action> {
    if virtual_key == vk::ESCAPE {
        Some(Action::Escape)
    } else if virtual_key == vk::BACK {
        Some(Action::BackspaceText)
    } else if virtual_key == vk::RETURN {
        Some(Action::NewlineText)
    } else {
        None
    }
}

/// What a key means the rest of the time.
pub open spec fn command_binding(virtual_key: u32) -> Option<Action> {
    if virtual_key == vk::D {
        Some(Action::EnterDraw)
    } else if virtual_key == vk::P {
        Some(Action::ToggleDraw)
    } else if virtual_key == vk::H {
        Some(Action::ToggleVisibility)
    } else if virtual_key == vk::ESCAPE {
        Some(Action::Escape)
    } else if virtual_key == vk::KEY_1 {
        Some(Action::SelectTool(Tool::Pen))
    } else if virtual_key == vk::KEY_2 {
        Some(Action::SelectTool(Tool::Highlighter))
    } else if virtual_key == vk::KEY_3 {
        Some(Action::SelectTool(Tool::Line))
    } else if virtual_key == vk::KEY_4 {
        Some(Action::SelectTool(Tool::Arrow))
    } else if virtual_key == vk::KEY_5 {
        Some(Action::SelectTool(Tool::Rectangle))
    } else if virtual_key == vk::KEY_6 {
        Some(Action::SelectTool(Tool::Ellipse))
    } else if virtual_key == vk::KEY_7 || virtual_key == vk::E {
        Some(Action::SelectTool(Tool::Eraser))
    } else if virtual_key == vk::KEY_8 || virtual_key == vk::S {
        Some(Action::SelectTool(Tool::Select))
    } else if virtual_key == vk::KEY_9 {
        Some(Action::SelectTool(Tool::Text))
    } else if virtual_key == vk::G {
        Some(Action::TogglePark)
    } else if virtual_key == vk::W {
        Some(Action::Save)
    } else if virtual_key == vk::O {
        Some(Action::Load)
    } else if virtual_key == vk::DELETE || virtual_key == vk::BACK {
        Some(Action::DeleteSelection)
    } else if virtual_key == vk::U {
        Some(Action::Undo)
    } else if virtual_key == vk::R {
        Some(Action::Redo)
    } else if virtual_key == vk::X {
        Some(Action::Clear)
    } else if virtual_key == vk::C {
        Some(Action::CycleColor)
    } else if virtual_key == vk::Z {
        Some(Action::CycleZoom)
    } else if virtual_key == vk::OEM_4 {
        Some(Action::AdjustWidth(-1i32))
    } else if virtual_key == vk::OEM_6 {
        Some(Action::AdjustWidth(1i32))
    } else if virtual_key == vk::OEM_MINUS {
        Some(Action::AdjustOpacity(-1i32))
    } else if virtual_key == vk::OEM_PLUS {
        Some(Action::AdjustOpacity(1i32))
    } else {
        None
    }
}

/// What a key means while the text editor is open. A key there is a
/// character, not a shortcut, or typing "q" would quit and typing "x" would
/// erase the drawing. `None` means the key is typed text.
pub fn editing(virtual_key: u32) -> (action: Option<Action>)
    ensures
        action == editing_binding(virtual_key),
{
    match virtual_key {
        vk::ESCAPE => Some(Action::Escape),
        vk::BACK => Some(Action::BackspaceText),
        vk::RETURN => Some(Action::NewlineText),
        _ => None,
    }
}

/// What a key means the rest of the time. Quitting is absent on purpose: it
/// is the caller's to perform, not an action the controller understands.
pub fn command(virtual_key: u32) -> (action: Option<Action>)
    ensures
        action == command_binding(virtual_key),
{
    match virtual_key {
        vk::D => Some(Action::EnterDraw),
        vk::P => Some(Action::ToggleDraw),
        vk::H => Some(Action::ToggleVisibility),
        vk::ESCAPE => Some(Action::Escape),
        vk::KEY_1 => Some(Action::SelectTool(Tool::Pen)),
        vk::KEY_2 => Some(Action::SelectTool(Tool::Highlighter)),
        vk::KEY_3 => Some(Action::SelectTool(Tool::Line)),
        vk::KEY_4 => Some(Action::SelectTool(Tool::Arrow)),
        vk::KEY_5 => Some(Action::SelectTool(Tool::Rectangle)),
        vk::KEY_6 => Some(Action::SelectTool(Tool::Ellipse)),
        vk::KEY_7 | vk::E => Some(Action::SelectTool(Tool::Eraser)),
        vk::KEY_8 | vk::S => Some(Action::SelectTool(Tool::Select)),
        vk::KEY_9 => Some(Action::SelectTool(Tool::Text)),
        vk::G => Some(Action::TogglePark),
        vk::W => Some(Action::Save),
        vk::O => Some(Action::Load),
        vk::DELETE | vk::BACK => Some(Action::DeleteSelection),
        vk::U => Some(Action::Undo),
        vk::R => Some(Action::Redo),
        vk::X => Some(Action::Clear),
        vk::C => Some(Action::CycleColor),
        vk::Z => Some(Action::CycleZoom),
        vk::OEM_4 => Some(Action::AdjustWidth(-1)),
        vk::OEM_6 => Some(Action::AdjustWidth(1)),
        vk::OEM_MINUS => Some(Action::AdjustOpacity(-1)),
        vk::OEM_PLUS => Some(Action::AdjustOpacity(1)),
        _ => None,
    }
}

/// Whether this key ends the program.
pub fn quits(virtual_key: u32) -> (quit: bool)
    ensures
        quit == (virtual_key == vk::Q),
{
    virtual_key == vk::Q
}

/// The key that opens the window menu elsewhere. Windows needs no menu for
/// Always on Top, so the key is accepted and does nothing rather than being
/// silently absent.
pub fn is_window_menu(virtual_key: u32) -> (menu: bool)
    ensures
        menu == (virtual_key == vk::T),
{
    virtual_key == vk::T
}

/// The character a letter or digit key types, unshifted: digits are their
/// own codes, letters are their upper-case codes.
pub open spec fn typed_by(virtual_key: u32, c: char) -> bool {
    ||| ('0' <= c && c <= '9' && c as u32 == virtual_key)
    ||| ('a' <= c && c <= 'z' && c as u32 == virtual_key + 32)
}

/// Every letter and digit key means here what its character means in the
/// shared table, but for the two keys that differ on purpose: `0` (unbound
/// here) and `t` (accepted and inert here).
pub proof fn law_letters_and_digits_match_the_shared_table(virtual_key: u32, c: char)
    requires
        typed_by(virtual_key, c),
        c != '0',
        c != 't',
    ensures
        command_binding(virtual_key) == crate::keymap::command_binding(crate::keymap::Key::Char(c)),
{
}

/// No key both quits and acts.
pub proof fn law_quitting_is_not_an_action()
    ensures
        command_binding(vk::Q) is None,
        editing_binding(vk::Q) is None,
{
}

/// While the text editor is open, only escape, backspace and return mean
/// anything; every other key is text.
pub proof fn law_only_non_characters_act_while_editing(virtual_key: u32)
    ensures
        editing_binding(virtual_key) is Some
            <==> (virtual_key == vk::ESCAPE || virtual_key == vk::BACK || virtual_key == vk::RETURN),
{
}

} // verus!
