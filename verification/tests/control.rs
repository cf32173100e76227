use yappyink::control::{reply_to, socket_path_in};
use yappyink::tool::Action;
use yappyink::verbs::ControlCommand;

#[test]
fn control_every_verb_round_trips_through_its_own_name() {
    for command in ControlCommand::all() {
        assert_eq!(ControlCommand::parse(command.as_str()), Some(command));
    }
}

#[test]
fn control_parsing_ignores_case_and_surrounding_whitespace() {
    assert_eq!(
        ControlCommand::parse("  Toggle-Draw \n"),
        Some(ControlCommand::ToggleDraw)
    );
}

#[test]
fn control_anything_outside_the_verb_set_is_refused() {
    for line in [
        "",
        "draw; rm -rf /",
        "../../etc/passwd",
        "DRAW EXTRA",
        "toggledraw",
        "quit()",
        "\0draw",
    ] {
        assert_eq!(ControlCommand::parse(line), None, "{line:?} must not parse");
    }
}

#[test]
fn control_quit_is_the_only_verb_that_is_not_a_controller_action() {
    for command in ControlCommand::all() {
        let is_quit = command == ControlCommand::Quit;
        assert_eq!(command.action().is_none(), is_quit, "{command:?}");
    }
}

#[test]
fn control_emergency_hide_maps_to_the_action_that_never_waits() {
    assert_eq!(
        ControlCommand::EmergencyHide.action(),
        Some(Action::EmergencyHide)
    );
}

#[test]
fn the_socket_path_refuses_to_guess_when_the_runtime_dir_is_missing() {
    assert!(socket_path_in(None).is_err());
    assert!(socket_path_in(Some("")).is_err());
}

#[test]
fn the_socket_lives_in_the_runtime_directory() {
    let path = socket_path_in(Some("/run/user/1001")).unwrap();
    assert_eq!(path, "/run/user/1001/yappyink.sock");
}

#[test]
fn the_socket_path_errors_say_what_is_missing() {
    assert_eq!(socket_path_in(Some("")), Err("XDG_RUNTIME_DIR is empty".to_owned()));
    assert_eq!(
        socket_path_in(None),
        Err("XDG_RUNTIME_DIR is not set, so there is no private directory for the control socket"
            .to_owned())
    );
    assert_eq!(socket_path_in(Some("/run/user/7/")).unwrap(), "/run/user/7/yappyink.sock");
}

#[test]
fn the_server_answers_without_echoing_and_stops_only_when_the_overlay_is_gone() {
    assert_eq!(reply_to(Some(ControlCommand::Draw), true), ("ok", true));
    assert_eq!(
        reply_to(Some(ControlCommand::Quit), false),
        ("error the overlay is no longer running", false)
    );
    assert_eq!(reply_to(None, true), ("error unknown command", true));
    assert_eq!(reply_to(None, false), ("error unknown command", true));
}
