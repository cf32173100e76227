use yappyink::modes::{Confirmation, Mode, ModeEffect, ModeState};
use yappyink::platform_error::PlatformError;
use yappyink::tool::Action;
use yappyink::verbs::ControlCommand;
use yappyink::settings::{palette, palette_index, ToolState, Tools, OPACITY_STEPS, PALETTE_LEN, WIDTH_STEPS};
use yappyink::style::Rgb;
use yappyink::tool::{Corner, Tool};
use yappyink::object::StrokeKind;

#[test]
fn a_request_takes_effect_only_when_the_platform_confirms_it() {
    let mut state = ModeState::new();
    assert_eq!(state.mode(), Mode::Hidden);
    let transition = state.request(Mode::Draw).expect("a change is requested");
    assert_eq!(state.desired_mode(), Mode::Draw);
    assert_eq!(state.mode(), Mode::Hidden, "asking is not having");
    assert!(state.is_transitioning());
    assert!(!state.accepts_gestures());
    assert_eq!(state.mode_applied(transition), Confirmation::Applied { ignore_held_button: false });
    assert_eq!(state.mode(), Mode::Draw);
    assert!(state.accepts_gestures());
}

#[test]
fn a_superseded_confirmation_changes_nothing() {
    let mut state = ModeState::new();
    let first = state.request(Mode::Draw).unwrap();
    let second = state.request(Mode::PassThrough).unwrap();
    assert_ne!(first.get(), second.get());
    assert_eq!(state.mode_applied(first), Confirmation::Stale);
    assert_eq!(state.mode(), Mode::Hidden);
    assert_eq!(state.mode_applied(second), Confirmation::Applied { ignore_held_button: false });
    assert_eq!(state.mode(), Mode::PassThrough);
    assert_eq!(state.mode_applied(second), Confirmation::Stale, "a confirmation counts once");
}

#[test]
fn asking_for_the_mode_already_wanted_is_no_request() {
    let mut state = ModeState::new();
    assert_eq!(state.request(Mode::Hidden), None);
    assert!(state.toggle_draw().is_some());
    assert_eq!(state.desired_mode(), Mode::Draw);
    assert!(state.toggle_draw().is_some());
    assert_eq!(state.desired_mode(), Mode::PassThrough);
    assert!(state.toggle_visibility().is_some());
    assert_eq!(state.desired_mode(), Mode::Hidden);
}

#[test]
fn a_failed_transition_withdraws_to_hidden_and_reports_a_fault() {
    let mut state = ModeState::new();
    let transition = state.request(Mode::Draw).unwrap();
    assert!(state.mode_failed(transition));
    assert_eq!(state.mode(), Mode::Hidden);
    assert!(state.is_faulted());
    assert!(!state.mode_failed(transition), "a stale failure is ignored");
    assert!(state.request(Mode::Hidden).is_some(), "after a fault even the same mode is asked for again");
}

#[test]
fn emergency_hide_never_waits() {
    let mut state = ModeState::new();
    let transition = state.request(Mode::Draw).unwrap();
    state.emergency_hide();
    assert_eq!(state.mode(), Mode::Hidden);
    assert!(!state.is_transitioning());
    assert_eq!(state.mode_applied(transition), Confirmation::Stale);
    state.output_lost();
    assert_eq!(state.desired_mode(), Mode::Hidden);
}

#[test]
fn draw_confirmed_under_a_held_button_ignores_that_press() {
    let mut state = ModeState::new();
    state.set_button_held(true);
    assert!(state.button_held());
    let transition = state.request(Mode::Draw).unwrap();
    assert_eq!(state.mode_applied(transition), Confirmation::Applied { ignore_held_button: true });
}

#[test]
fn widths_and_opacities_stop_at_the_ends_of_their_tables() {
    assert_eq!(ToolState::step(0, -1, WIDTH_STEPS), 0);
    assert_eq!(ToolState::step(WIDTH_STEPS - 1, 1, WIDTH_STEPS), WIDTH_STEPS - 1);
    assert_eq!(ToolState::step(2, 3, WIDTH_STEPS), 5);
    assert_eq!(ToolState::step(2, i32::MIN, WIDTH_STEPS), 0);
    let mut state = ToolState { colour: 0, width: 6, opacity: 0 };
    state.adjust_width(1);
    state.adjust_opacity(-1);
    assert_eq!(state, ToolState { colour: 0, width: 6, opacity: 0 });
    state.adjust_opacity(100);
    assert_eq!(state.opacity, OPACITY_STEPS - 1);
}

#[test]
fn colours_cycle_through_the_palette_and_wrap() {
    let mut state = ToolState { colour: PALETTE_LEN - 1, width: 0, opacity: 0 };
    state.cycle_colour();
    assert_eq!(state.colour, 0);
    state.set_colour(Rgb::new(64, 176, 255));
    assert_eq!(state.colour, 4);
    state.set_colour(Rgb::new(1, 2, 3));
    assert_eq!(state.colour, 4, "a colour outside the palette changes nothing");
    assert_eq!(palette_index(palette()[2]), Some(2));
    assert_eq!(palette_index(Rgb::new(0, 0, 0)), None);
}

#[test]
fn the_shape_tools_share_settings_and_the_others_keep_their_own() {
    let mut tools = Tools::new();
    assert_eq!(tools.tool, Tool::Pen);
    tools.select(Tool::Rectangle);
    let mut shape = tools.current();
    shape.cycle_colour();
    tools.set_current(shape);
    tools.select(Tool::Arrow);
    assert_eq!(tools.current(), shape);
    tools.select(Tool::Pen);
    assert_eq!(tools.current(), ToolState { colour: 0, width: 2, opacity: 4 });
    tools.select(Tool::Highlighter);
    assert_eq!(tools.current(), ToolState { colour: 2, width: 5, opacity: 1 });
}

#[test]
fn tools_know_what_they_draw() {
    assert!(Tool::Pen.is_freehand());
    assert!(Tool::Eraser.is_freehand());
    assert!(!Tool::Line.is_freehand());
    assert!(Tool::Select.is_select());
    assert_eq!(Tool::Highlighter.stroke_kind(), Some(StrokeKind::Highlighter));
    assert_eq!(Tool::Eraser.stroke_kind(), None);
    for corner in Corner::all() {
        assert_ne!(corner.opposite(), corner);
        assert_eq!(corner.opposite().opposite(), corner);
    }
    assert_eq!(Corner::TopLeft.opposite(), Corner::BottomRight);
}

#[test]
fn pressing_next_colour_once_per_palette_entry_comes_back() {
    let start = ToolState { colour: 3, width: 1, opacity: 2 };
    let mut state = start;
    let mut seen = vec![state.colour];
    for _ in 0..PALETTE_LEN {
        state.cycle_colour();
        seen.push(state.colour);
    }
    assert_eq!(state, start, "the palette is a cycle");
    assert_eq!(seen, vec![3, 4, 5, 0, 1, 2, 3]);
}

#[test]
fn the_first_request_is_numbered_one_and_a_repeat_asks_for_nothing() {
    let mut state = ModeState::new();
    let effects = state.ask(Mode::Draw);
    assert_eq!(effects.len(), 1);
    let ModeEffect::ApplyMode { mode, transition } = effects[0].clone() else { panic!("not a mode change") };
    assert_eq!((mode, transition.get()), (Mode::Draw, 1));
    assert_eq!(state.desired_mode(), Mode::Draw);
    assert_eq!(state.mode(), Mode::Hidden);
    assert!(state.is_transitioning());
    assert!(!state.would_start(Mode::Draw));
    assert_eq!(state.ask(Mode::Draw), vec![]);
    state.mode_applied(transition);
    assert_eq!(state.mode(), Mode::Draw);
    assert!(!state.is_transitioning());
}

#[test]
fn a_failure_withdraws_before_it_reports_and_a_stale_one_asks_for_nothing() {
    let mut state = ModeState::new();
    let first = state.request(Mode::Draw).unwrap();
    let error = PlatformError::unsupported("layer surface", "not advertised");
    assert_eq!(
        state.fail(first, error.clone()),
        vec![ModeEffect::WithdrawImmediately, ModeEffect::Faulted { error: error.clone() }]
    );
    assert_eq!((state.mode(), state.desired_mode()), (Mode::Hidden, Mode::Hidden));
    assert!(state.is_faulted());
    assert!(!state.is_transitioning());
    assert_eq!(state.fail(first, error), vec![]);
}

#[test]
fn an_emergency_withdrawal_leaves_nothing_in_flight() {
    let mut state = ModeState::new();
    let transition = state.request(Mode::Draw).unwrap();
    assert_eq!(state.withdraw_now(), vec![ModeEffect::WithdrawImmediately]);
    assert!(!state.is_transitioning());
    assert_eq!(state.mode_applied(transition), Confirmation::Stale);
    assert_eq!(state.mode(), Mode::Hidden);
}

#[test]
fn the_direct_verbs_ask_for_their_own_mode_and_the_toggles_depend_on_it() {
    let mut state = ModeState::new();
    let pass = ControlCommand::PassThrough.action().unwrap();
    let hide = ControlCommand::Hide.action().unwrap();
    assert_eq!(state.mode_for(pass), Some(Mode::PassThrough), "from hidden, pass-through is not draw");
    assert_eq!(state.mode_for(hide), Some(Mode::Hidden));
    assert_eq!(state.mode_for(Action::ToggleDraw), Some(Mode::Draw));
    assert_eq!(state.mode_for(Action::ToggleVisibility), Some(Mode::PassThrough));
    state.request(Mode::Draw).unwrap();
    assert_eq!(state.mode_for(pass), Some(Mode::PassThrough));
    assert_eq!(state.mode_for(Action::ToggleDraw), Some(Mode::PassThrough));
    assert_eq!(state.mode_for(Action::ToggleVisibility), Some(Mode::Hidden));
    assert_eq!(state.mode_for(Action::Undo), None);
}
