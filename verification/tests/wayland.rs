use yappyink::capability::Capability;
use yappyink::keymap::{self, Key};
use yappyink::output::OutputInfo;
use yappyink::tool::Action;
use yappyink::wayland::ime::{ImeStep, Pending};
use yappyink::wayland::keys::{key_for, BACKSPACE, DELETE, ESCAPE, KP_ENTER};
use yappyink::wayland::overlay::{OverlayRequest, OverlayStopped};
use yappyink::wayland::magnifier::{
    encode, magnifier_state, names_gnome, restore_fields, restore_plan, Saved, APPLICATIONS, ENABLED, FACTOR,
    MAGNIFIER,
};
use yappyink::wayland::platform::{capabilities, sort_globals, AdvertisedGlobal, WaylandProbe};
use yappyink::wayland::sizing::floating_size;

#[test]
fn a_small_laptop_screen_gets_a_window_gnome_will_not_maximize() {
    let (w, h) = floating_size((1280, 720), &[(1366, 768)]);
    assert_eq!((w, h), (1092, 614));
    let share = f64::from(w * h) / f64::from(1366 * 697);
    assert!(share < 0.75, "{share}");
}

#[test]
fn a_large_screen_keeps_the_requested_size() {
    assert_eq!(floating_size((1280, 720), &[(1920, 1080)]), (1280, 720));
    assert_eq!(floating_size((1280, 720), &[(2560, 1440)]), (1280, 720));
}

#[test]
fn the_smallest_output_decides() {
    let size = floating_size((1280, 720), &[(1920, 1080), (1366, 768)]);
    assert_eq!(size, (1092, 614));
}

#[test]
fn with_no_output_known_the_request_stands() {
    assert_eq!(floating_size((1280, 720), &[]), (1280, 720));
    assert_eq!(floating_size((1280, 720), &[(0, 0)]), (1280, 720));
}

#[test]
fn the_share_matches_four_fifths_rounded_down_and_never_drops_to_zero() {
    for side in [1u32, 2, 3, 4, 5, 6, 7, 768, 1366, 1919, 4_000_000_000, u32::MAX] {
        let expected = ((f64::from(side) * 0.8).floor() as u32).max(1);
        assert_eq!(floating_size((u32::MAX, u32::MAX), &[(side, side)]), (expected, expected));
    }
    assert_eq!(floating_size((5, 5), &[(1, 1)]), (1, 1));
}

#[test]
fn equal_areas_keep_the_first_output() {
    assert_eq!(floating_size((5000, 5000), &[(200, 100), (100, 200)]), (160, 80));
}

#[test]
fn z_zooms_on_wayland() {
    let key = key_for(0x7a, Some("z")).unwrap();
    assert_eq!(keymap::command(key), Some(Action::CycleZoom));
}

#[test]
fn wayland_shift_does_not_change_what_a_key_does() {
    assert_eq!(key_for(0x5a, Some("Z")), key_for(0x7a, Some("z")));
    assert_eq!(key_for(0x44, Some("D")), Some(Key::Char('d')));
}

#[test]
fn keys_without_text_are_named_by_keysym() {
    assert_eq!(key_for(ESCAPE, None), Some(Key::Escape));
    assert_eq!(key_for(BACKSPACE, None), Some(Key::Backspace));
    assert_eq!(key_for(DELETE, None), Some(Key::Delete));
    assert_eq!(key_for(KP_ENTER, None), Some(Key::Enter));
}

#[test]
fn a_control_character_is_not_a_key() {
    assert_eq!(key_for(0, Some("\u{1b}")), None);
    assert_eq!(key_for(0, None), None);
    assert_eq!(key_for(0, Some("")), None);
}

#[test]
fn every_key_the_old_table_bound_still_works() {
    let expected = [
        ("d", Action::EnterDraw),
        ("p", Action::ToggleDraw),
        ("h", Action::ToggleVisibility),
        ("g", Action::TogglePark),
        ("w", Action::Save),
        ("o", Action::Load),
        ("t", Action::ShowWindowMenu),
        ("u", Action::Undo),
        ("r", Action::Redo),
        ("x", Action::Clear),
        ("c", Action::CycleColor),
        ("[", Action::AdjustWidth(-1)),
        ("]", Action::AdjustWidth(1)),
        ("-", Action::AdjustOpacity(-1)),
        ("=", Action::AdjustOpacity(1)),
        ("+", Action::AdjustOpacity(1)),
    ];
    for (text, action) in expected {
        let key = key_for(0, Some(text)).unwrap();
        assert_eq!(keymap::command(key), Some(action), "{text:?}");
    }
    assert!(keymap::quits(key_for(0x71, Some("q")).unwrap()));
}

#[test]
fn the_engine_is_answered_in_the_protocols_order() {
    let pending = Pending {
        preedit: Some("नम".to_owned()),
        commit: Some("नमस्ते".to_owned()),
        delete: Some((2, 0)),
    };
    assert_eq!(
        pending.steps(),
        vec![
            ImeStep::DeleteSurrounding { before: 2, after: 0 },
            ImeStep::Commit("नमस्ते".to_owned()),
            ImeStep::Preedit("नम".to_owned()),
        ]
    );
}

#[test]
fn an_empty_done_still_clears_the_composition() {
    assert_eq!(Pending::default().steps(), vec![ImeStep::Preedit(String::new())]);
}

fn probe_with(globals: &[(&str, u32)], outputs: usize) -> WaylandProbe {
    WaylandProbe {
        globals: globals
            .iter()
            .map(|(i, v)| AdvertisedGlobal { interface: (*i).to_owned(), version: *v })
            .collect(),
        outputs: vec![OutputInfo::default(); outputs],
    }
}

#[test]
fn advertised_layer_shell_is_still_not_a_working_overlay() {
    let report = capabilities(&probe_with(&[("zwlr_layer_shell_v1", 4)], 1));
    let state = report.state_of(Capability::LiveOverlay);
    assert!(!state.is_available());
    assert_eq!(state.label(), "unknown");
    assert!(state.detail().contains("T006"));
    assert!(state.detail().starts_with("zwlr_layer_shell_v1 v4 is advertised"));
}

#[test]
fn a_session_without_layer_shell_points_at_the_gnome_decision() {
    let report = capabilities(&probe_with(&[("xdg_wm_base", 6)], 1));
    let state = report.state_of(Capability::LiveOverlay);
    assert_eq!(state.label(), "unknown");
    assert!(state.detail().contains("ADR-002"));
}

#[test]
fn enumerating_outputs_is_the_one_thing_this_probe_actually_proves() {
    let report = capabilities(&probe_with(&[("wl_output", 4)], 2));
    let state = report.state_of(Capability::OutputEnumeration);
    assert!(state.is_available());
    assert_eq!(state.detail(), "wl_output enumerated 2 output(s) over the protocol");
    let none = capabilities(&probe_with(&[], 0));
    assert_eq!(none.state_of(Capability::OutputEnumeration).label(), "unavailable");
}

#[test]
fn capture_is_never_probed_by_the_drawing_path() {
    let report = capabilities(&probe_with(&[], 1));
    assert_eq!(report.state_of(Capability::Capture).label(), "unknown");
    assert!(!report.state_of(Capability::Capture).is_available());
    assert_eq!(report.findings().len(), 11);
}

#[test]
fn the_first_advertised_version_is_reported() {
    let probe = probe_with(&[("wl_output", 4), ("zwlr_layer_shell_v1", 3), ("zwlr_layer_shell_v1", 5)], 0);
    assert_eq!(probe.version_of("zwlr_layer_shell_v1"), Some(3));
    assert_eq!(probe.version_of("wl_seat"), None);
    assert!(probe.advertises_layer_shell());
    assert!(!probe_with(&[("wl_output", 4)], 0).advertises_layer_shell());
}

#[test]
fn requests_and_refusals_read_plainly() {
    assert_ne!(OverlayRequest::Quit, OverlayRequest::Act(Action::ToggleDraw));
    assert_eq!(OverlayStopped.message(), "the overlay is no longer running");
}

#[test]
fn globals_sort_as_their_derived_order_does() {
    let globals: Vec<AdvertisedGlobal> = [
        ("xdg_wm_base", 6),
        ("wl_output", 4),
        ("wl_compositor", 6),
        ("wl_output", 3),
        ("zwlr_layer_shell_v1", 4),
        ("wl_", 1),
        ("Z", 1),
        ("é", 1),
        ("wl_output", 4),
    ]
    .iter()
    .map(|(i, v)| AdvertisedGlobal { interface: (*i).to_owned(), version: *v })
    .collect();
    let mut expected = globals.clone();
    expected.sort();
    assert_eq!(sort_globals(globals), expected);
    assert_eq!(sort_globals(Vec::new()), Vec::<AdvertisedGlobal>::new());
}

#[test]
fn gnome_is_recognised_among_the_desktop_names_in_any_case() {
    assert!(names_gnome("GNOME"));
    assert!(names_gnome("ubuntu:GNOME"));
    assert!(names_gnome("gnome:Unity"));
    assert!(names_gnome("Pop:gnome"));
    assert!(!names_gnome("KDE"));
    assert!(!names_gnome(""));
    assert!(!names_gnome("GNOME-Classic"));
    assert!(!names_gnome("ubuntu:GNOMEx"));
    assert!(names_gnome("a::GnOmE:"));
}

#[test]
fn live_zoom_is_offered_only_where_the_shell_magnifier_is() {
    let elsewhere = magnifier_state("KDE", true);
    assert_eq!(elsewhere.label(), "unavailable");
    assert_eq!(
        elsewhere.detail(),
        "no GNOME Shell magnifier: the desktop is \"KDE\", and ADR-008 has no route for it"
    );
    assert!(magnifier_state("ubuntu:GNOME", true).is_available());
    assert!(magnifier_state("ubuntu:GNOME", true).detail().starts_with("E017"));
    assert_eq!(
        magnifier_state("GNOME", false).detail(),
        "GNOME, but `gsettings` or the magnifier schema is missing"
    );
}

fn saved(enabled: &str, factor: &str) -> Saved {
    Saved { enabled: enabled.to_owned(), factor: factor.to_owned() }
}

#[test]
fn the_restore_file_round_trips() {
    let written = saved("false", "2.0");
    assert_eq!(encode(&written), "false\n2.0\n");
    assert_eq!(restore_fields(&encode(&written)), Some(written));
}

#[test]
fn a_restore_file_without_two_lines_or_a_switch_is_refused() {
    for text in ["", "false\n", "false", "yes\n2.0\n", "\n2.0\n", "True\n2.0\n"] {
        assert_eq!(restore_fields(text), None, "{text:?} was accepted");
    }
}

#[test]
fn a_restore_file_is_read_line_by_line_and_trimmed() {
    assert_eq!(restore_fields("  true \r\n 1.5\r\nignored\n"), Some(saved("true", "1.5")));
    assert_eq!(restore_fields("false\n2.0"), Some(saved("false", "2.0")), "the last break is optional");
    assert_eq!(restore_fields("false\n\n"), Some(saved("false", "")), "an empty factor is the caller's to refuse");
}

#[test]
fn off_restores_exactly_what_the_user_had() {
    let changes = restore_plan(&saved("true", "1.5"));
    assert_eq!(
        changes,
        vec![(APPLICATIONS, ENABLED, "true".to_owned()), (MAGNIFIER, FACTOR, "1.5".to_owned())]
    );
}
