use yappyink::keymap::{self, Key};
use yappyink::macos::chords::{
    action_for, chords, four_cc, CONTROL, EVENT_CLASS_KEYBOARD, OPTION, PARAM_DIRECT_OBJECT,
    SIGNATURE, TYPE_HOT_KEY_ID,
};
use yappyink::macos::keys::{code, translate};
use yappyink::macos::platform::{capabilities, BACKEND};
use yappyink::macos::surface::{buffer_len, bytes_per_row, layout_matches};
use yappyink::capability::{Capability, CapabilityState};
use yappyink::tool::{Action, Tool};
use yappyink::windows::surface as windows_surface;

#[test]
fn four_character_codes_match_apples_values() {
    assert_eq!(EVENT_CLASS_KEYBOARD, 0x6B65_7962);
    assert_eq!(PARAM_DIRECT_OBJECT, 0x2D2D_2D2D);
    assert_eq!(TYPE_HOT_KEY_ID, 0x686B_6964);
}

#[test]
fn the_constants_are_the_codes_of_their_names() {
    assert_eq!(four_cc(b"keyb"), EVENT_CLASS_KEYBOARD);
    assert_eq!(four_cc(b"----"), PARAM_DIRECT_OBJECT);
    assert_eq!(four_cc(b"hkid"), TYPE_HOT_KEY_ID);
    assert_eq!(four_cc(b"yink"), SIGNATURE);
    assert_eq!(four_cc(b"keyb"), u32::from_be_bytes(*b"keyb"));
}

#[test]
fn modifier_masks_match_apples_values() {
    assert_eq!(CONTROL, 0x1000);
    assert_eq!(OPTION, 0x0800);
}

#[test]
fn every_chord_survives_the_option_only_rule() {
    for chord in chords() {
        assert!(chord.modifiers & CONTROL != 0, "{} lacks Control", chord.name);
    }
}

#[test]
fn the_chords_are_distinct_and_recognised() {
    let all = chords();
    for (i, a) in all.iter().enumerate() {
        for b in &all[i + 1..] {
            assert_ne!(a.id, b.id);
            assert_ne!(a.key, b.key);
        }
    }
    for chord in all {
        assert_eq!(action_for(SIGNATURE, chord.id), Some(chord.action));
    }
}

#[test]
fn a_foreign_hot_key_is_ignored() {
    assert_eq!(action_for(four_cc(b"othr"), 1), None);
    assert_eq!(action_for(SIGNATURE, 99), None);
}

#[test]
fn there_is_a_way_back_from_pass_through() {
    assert!(chords().iter().any(|c| c.action == Action::ToggleDraw));
}

#[test]
fn the_mac_delete_key_is_backspace() {
    assert_eq!(translate(code::DELETE_BACKWARD), Some(Key::Backspace));
    assert_eq!(translate(code::DELETE_FORWARD), Some(Key::Delete));
    assert_eq!(
        keymap::editing(translate(code::DELETE_BACKWARD).unwrap()),
        Some(Action::BackspaceText),
        "the Delete key must edit text, not delete the object being edited"
    );
}

#[test]
fn both_return_keys_are_enter() {
    for c in [code::CARRIAGE_RETURN, code::ENTER, code::NEWLINE] {
        assert_eq!(translate(c), Some(Key::Enter));
    }
}

#[test]
fn keys_shift_does_not_change_what_a_key_does() {
    assert_eq!(translate('D'), Some(Key::Char('d')));
    assert_eq!(translate('d'), Some(Key::Char('d')));
    assert_eq!(keymap::command(translate('D').unwrap()), Some(Action::EnterDraw));
}

#[test]
fn function_keys_are_not_characters() {
    for c in ['\u{F704}', '\u{F700}', '\u{F702}'] {
        assert_eq!(translate(c), None, "{c:?} leaked through as a character");
    }
}

#[test]
fn a_key_press_reaches_the_right_action() {
    let cases = [
        ('d', Action::EnterDraw),
        ('9', Action::SelectTool(Tool::Text)),
        ('e', Action::SelectTool(Tool::Eraser)),
        ('[', Action::AdjustWidth(-1)),
        ('=', Action::AdjustOpacity(1)),
    ];
    for (c, action) in cases {
        let key = translate(c).expect("should translate");
        assert_eq!(keymap::command(key), Some(action), "for {c:?}");
    }
}

#[test]
fn quitting_works_through_the_shared_table() {
    assert!(keymap::quits(translate('q').unwrap()));
}

#[test]
fn control_characters_and_escape_are_told_apart() {
    assert_eq!(translate(code::ESCAPE), Some(Key::Escape));
    assert_eq!(translate('\u{0001}'), None);
    assert_eq!(translate('\u{0085}'), None);
    assert_eq!(translate('\u{00E9}'), Some(Key::Char('\u{00E9}')));
    assert_eq!(translate('\u{F8FF}'), None);
    assert_eq!(translate('\u{F900}'), Some(Key::Char('\u{F900}')));
}

#[test]
fn rows_are_tightly_packed() {
    assert_eq!(bytes_per_row(1), 4);
    assert_eq!(bytes_per_row(1920), 7680);
    assert_eq!(bytes_per_row(1366), 5464);
}

#[test]
fn surface_the_buffer_is_every_row() {
    assert_eq!(buffer_len(1920, 1080), 1920 * 1080 * 4);
    assert_eq!(windows_surface::buffer_len(1920, 1080), 1920 * 1080 * 4);
    assert_eq!(windows_surface::buffer_len(1366, 768), 1366 * 768 * 4);
}

#[test]
fn surface_a_canvas_of_the_same_size_fits_exactly() {
    assert!(layout_matches(800 * 600 * 4, 800, 600));
    assert!(!layout_matches(800 * 600 * 4 - 4, 800, 600));
    let width = 800;
    let height = 600;
    assert!(windows_surface::layout_matches((width * height * 4) as usize, width, height));
    assert!(!windows_surface::layout_matches((width * height * 4) as usize - 4, width, height));
    assert!(!windows_surface::layout_matches((width * height * 4) as usize + 4, width, height));
}

#[test]
fn macos_nothing_is_claimed_before_it_is_measured() {
    let observed = [Capability::LiveOverlay, Capability::DrawPointerCapture];
    for finding in capabilities().findings() {
        assert_eq!(finding.backend, BACKEND);
        match &finding.state {
            CapabilityState::Available { evidence } => {
                assert!(
                    observed.contains(&finding.capability),
                    "{:?} claims availability with no evidence file",
                    finding.capability
                );
                assert!(evidence.starts_with("E011"), "{evidence}");
            }
            CapabilityState::Unknown { .. } => {}
            other => panic!("{:?} claims {other:?} without evidence", finding.capability),
        }
    }
}

#[test]
fn macos_every_capability_is_accounted_for() {
    assert_eq!(
        capabilities().findings().len(),
        11,
        "a capability was added or dropped without a reason being written"
    );
}
