use yappyink::tool::Action;
use yappyink::verbs::ControlCommand;

#[test]
fn verbs_every_verb_round_trips_through_its_own_name() {
    for command in ControlCommand::all() {
        assert_eq!(ControlCommand::parse(command.as_str()), Some(command));
    }
}

#[test]
fn verbs_parsing_ignores_case_and_surrounding_whitespace() {
    assert_eq!(
        ControlCommand::parse("  Toggle-Draw \n"),
        Some(ControlCommand::ToggleDraw)
    );
}

#[test]
fn verbs_anything_outside_the_verb_set_is_refused() {
    for line in [
        "",
        "draw; rm -rf /",
        "../../etc/passwd",
        "DRAW EXTRA",
        "toggledraw",
        "quit()",
        "\0draw",
    ] {
        assert_eq!(ControlCommand::parse(line), None, "{line:?} must not parse");
    }
}

#[test]
fn verbs_quit_is_the_only_verb_that_is_not_a_controller_action() {
    for command in ControlCommand::all() {
        let is_quit = command == ControlCommand::Quit;
        assert_eq!(command.action().is_none(), is_quit, "{command:?}");
    }
}

#[test]
fn verbs_emergency_hide_maps_to_the_action_that_never_waits() {
    assert_eq!(
        ControlCommand::EmergencyHide.action(),
        Some(Action::EmergencyHide)
    );
}

#[test]
fn every_verb_round_trips_through_its_index() {
    for command in ControlCommand::all() {
        assert_eq!(ControlCommand::from_index(command.index()), Some(command));
    }
    assert_eq!(
        ControlCommand::from_index(ControlCommand::all().len() as u32),
        None
    );
    assert_eq!(ControlCommand::from_index(u32::MAX), None);
}

#[test]
fn the_verbs_keep_their_names_and_order() {
    let names: Vec<&str> = ControlCommand::all().iter().map(|c| c.as_str()).collect();
    assert_eq!(
        names,
        vec!["toggle-draw", "draw", "pass-through", "hide", "emergency-hide", "save", "load", "quit"]
    );
    assert_eq!(ControlCommand::Quit.index(), 7);
    assert_eq!(ControlCommand::PassThrough.action(), Some(Action::EnterPassThrough));
    assert_eq!(ControlCommand::Hide.action(), Some(Action::EnterHidden));
    assert_eq!(ControlCommand::parse("\u{3000}HIDE\t"), Some(ControlCommand::Hide));
}
