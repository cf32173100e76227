use yappyink::keymap::{self as shared, Key};
use yappyink::capability::{Capability, CapabilityState};
use yappyink::tool::{Action, Cursor, Tool};
use yappyink::verbs::ControlCommand;
use yappyink::windows::keys::{command, editing, is_window_menu, quits, vk};
use yappyink::windows::platform::{capabilities, decode, Remote, BACKEND};
use yappyink::windows::surface::{
    choose_monitor, cursor_resource, dib_height, moved, remote_index, remote_message, resized,
    stride, Monitor, PixelRect, MAX_REMOTE, MIN_RESIZE,
};

#[test]
fn the_editor_keeps_only_the_keys_that_cannot_be_characters() {
    assert_eq!(editing(vk::ESCAPE), Some(Action::Escape));
    assert_eq!(editing(vk::BACK), Some(Action::BackspaceText));
    assert_eq!(editing(vk::RETURN), Some(Action::NewlineText));
}

#[test]
fn every_other_key_is_text_while_editing() {
    for key in [vk::Q, vk::X, vk::C, vk::D, vk::P, vk::U, vk::KEY_1, vk::KEY_9, vk::DELETE] {
        assert_eq!(editing(key), None, "virtual key {key:#04x} was treated as a command while editing");
    }
}

#[test]
fn quitting_is_not_an_action() {
    assert!(quits(vk::Q));
    assert_eq!(command(vk::Q), None);
}

#[test]
fn the_bindings_match_the_documented_set() {
    let expected: &[(u32, Action)] = &[
        (vk::D, Action::EnterDraw),
        (vk::P, Action::ToggleDraw),
        (vk::H, Action::ToggleVisibility),
        (vk::G, Action::TogglePark),
        (vk::W, Action::Save),
        (vk::O, Action::Load),
        (vk::U, Action::Undo),
        (vk::R, Action::Redo),
        (vk::X, Action::Clear),
        (vk::C, Action::CycleColor),
        (vk::KEY_1, Action::SelectTool(Tool::Pen)),
        (vk::KEY_2, Action::SelectTool(Tool::Highlighter)),
        (vk::KEY_3, Action::SelectTool(Tool::Line)),
        (vk::KEY_4, Action::SelectTool(Tool::Arrow)),
        (vk::KEY_5, Action::SelectTool(Tool::Rectangle)),
        (vk::KEY_6, Action::SelectTool(Tool::Ellipse)),
        (vk::KEY_7, Action::SelectTool(Tool::Eraser)),
        (vk::E, Action::SelectTool(Tool::Eraser)),
        (vk::KEY_8, Action::SelectTool(Tool::Select)),
        (vk::S, Action::SelectTool(Tool::Select)),
        (vk::KEY_9, Action::SelectTool(Tool::Text)),
        (vk::OEM_4, Action::AdjustWidth(-1)),
        (vk::OEM_6, Action::AdjustWidth(1)),
        (vk::OEM_MINUS, Action::AdjustOpacity(-1)),
        (vk::OEM_PLUS, Action::AdjustOpacity(1)),
    ];
    for (key, action) in expected {
        assert_eq!(command(*key), Some(*action), "virtual key {key:#04x} is not bound as documented");
    }
}

#[test]
fn keys_an_unbound_key_does_nothing() {
    assert_eq!(command(0x7C), None);
    assert_eq!(command(vk::KEY_0), None);
    assert_eq!(command(vk::A), None);
}

#[test]
fn the_window_menu_key_is_accepted_and_delete_removes_the_selection() {
    assert!(is_window_menu(vk::T));
    assert!(!is_window_menu(vk::W));
    assert_eq!(command(vk::DELETE), Some(Action::DeleteSelection));
    assert_eq!(command(vk::BACK), Some(Action::DeleteSelection));
    assert_eq!(command(vk::ESCAPE), Some(Action::Escape));
}

#[test]
fn a_32_bit_row_needs_no_padding() {
    assert_eq!(stride(1), 4);
    assert_eq!(stride(1920), 7680);
    assert_eq!(stride(3), 12);
    assert_eq!(stride(1366), 5464);
}

#[test]
fn the_dib_is_top_down() {
    assert_eq!(dib_height(1080), -1080);
    assert!(dib_height(1) < 0);
}

fn monitor(left: i32, width: i32, dpi: u32, primary: bool) -> Monitor {
    Monitor {
        bounds: PixelRect { left, top: 0, right: left + width, bottom: 1080 },
        dpi,
        primary,
    }
}

#[test]
fn with_nothing_asked_for_the_primary_is_chosen() {
    let monitors = [monitor(-1920, 1920, 96, false), monitor(0, 1920, 96, true)];
    assert_eq!(choose_monitor(&monitors, None), Ok(1));
}

#[test]
fn a_monitor_is_chosen_by_its_number_from_one() {
    let monitors = [monitor(0, 1920, 96, true), monitor(1920, 2560, 144, false)];
    assert_eq!(choose_monitor(&monitors, Some(1)), Ok(0));
    assert_eq!(choose_monitor(&monitors, Some(2)), Ok(1));
}

#[test]
fn a_monitor_that_does_not_exist_is_refused_rather_than_guessed() {
    let monitors = [monitor(0, 1920, 96, true)];
    let refusal = choose_monitor(&monitors, Some(2)).unwrap_err();
    assert!(refusal.contains("has 1"), "{refusal}");
    assert_eq!(refusal, "there is no monitor 2; this machine has 1 (numbered from 1)");
    assert!(choose_monitor(&monitors, Some(0)).is_err());
    assert_eq!(choose_monitor(&[], None), Err("Windows reported no monitors at all".to_owned()));
}

#[test]
fn without_a_primary_the_first_monitor_is_chosen() {
    let monitors = [monitor(0, 1920, 96, false), monitor(1920, 1920, 96, false)];
    assert_eq!(choose_monitor(&monitors, None), Ok(0));
    let both = [monitor(0, 1920, 96, false), monitor(1920, 1920, 96, true), monitor(3840, 1920, 96, true)];
    assert_eq!(choose_monitor(&both, None), Ok(1));
}

#[test]
fn a_drag_moves_without_resizing() {
    let start = PixelRect { left: 100, top: 100, right: 900, bottom: 700 };
    let after = moved(start, (150, 120), (170, 90));
    assert_eq!((after.left, after.top), (120, 70));
    assert_eq!((after.width(), after.height()), (800, 600));
}

#[test]
fn a_resize_moves_only_the_far_corner_and_stops_at_the_minimum() {
    let start = PixelRect { left: 100, top: 100, right: 900, bottom: 700 };
    let bigger = resized(start, (900, 700), (1000, 750), MIN_RESIZE);
    assert_eq!((bigger.left, bigger.top), (100, 100));
    assert_eq!((bigger.width(), bigger.height()), (900, 650));

    let crushed = resized(start, (900, 700), (0, 0), MIN_RESIZE);
    assert_eq!((crushed.width(), crushed.height()), MIN_RESIZE);
}

#[test]
fn every_cursor_has_a_distinct_system_resource() {
    let all = [Cursor::Default, Cursor::Text, Cursor::Crosshair, Cursor::ResizeBottomRight, Cursor::Move];
    let mut ids: Vec<u16> = all.iter().map(|c| cursor_resource(*c)).collect();
    ids.sort_unstable();
    ids.dedup();
    assert_eq!(ids.len(), all.len());
    assert_eq!(cursor_resource(Cursor::Default), 32512);
}

#[test]
fn remote_messages_round_trip_and_stay_in_their_range() {
    for index in 0..MAX_REMOTE {
        let message = remote_message(index).unwrap();
        assert_eq!(remote_index(message), Some(index));
    }
    assert_eq!(remote_message(MAX_REMOTE), None);
    assert_eq!(remote_index(0x0201), None);
    assert_eq!(remote_index(0x8000 + MAX_REMOTE), None);
}

#[test]
fn a_remote_number_decodes_to_its_verb() {
    for command in ControlCommand::all() {
        let expected = match command.action() {
            Some(action) => Remote::Act(action),
            None => Remote::Quit,
        };
        assert_eq!(decode(command.index()), Some(expected));
    }
    assert_eq!(decode(8), None);
    assert_eq!(decode(ControlCommand::Quit.index()), Some(Remote::Quit));
}

#[test]
fn lib_nothing_is_claimed_before_it_is_measured() {
    let observed = [Capability::LiveOverlay, Capability::DrawPointerCapture];
    for finding in capabilities().findings() {
        assert_eq!(finding.backend, BACKEND);
        match &finding.state {
            CapabilityState::Available { evidence } => {
                assert!(
                    observed.contains(&finding.capability),
                    "{:?} claims availability with no evidence file",
                    finding.capability
                );
                assert!(evidence.starts_with("E010"), "{evidence}");
            }
            CapabilityState::Unknown { .. } => {}
            other => panic!("{:?} claims {other:?} without evidence", finding.capability),
        }
    }
}

#[test]
fn lib_every_capability_is_accounted_for() {
    assert_eq!(
        capabilities().findings().len(),
        11,
        "a capability was added or dropped without a reason being written"
    );
}

#[test]
fn letters_and_digits_mean_what_the_shared_table_says() {
    for c in "abcdefghijklmnopqrsuvwxyz123456789".chars() {
        let code = c.to_ascii_uppercase() as u32;
        assert_eq!(command(code), shared::command(Key::Char(c)), "{c:?} differs");
    }
    assert_eq!(command(vk::Z), Some(Action::CycleZoom));
    assert_eq!(command(vk::KEY_0), None, "0 is left unbound here on purpose");
}
