use yappyink::id::ObjectId;
use yappyink::modes::{Mode, ModeState};
use yappyink::object::StrokeKind;
use yappyink::press::{
    button_release, escape_step, keep_present, press, EscapeStep, PressOutcome, PressTarget, ToolbarSpot,
};
use yappyink::tool::{Action, Corner, Icon, Tool};

const ALL_TOOLS: [Tool; 9] = [
    Tool::Pen,
    Tool::Highlighter,
    Tool::Line,
    Tool::Arrow,
    Tool::Rectangle,
    Tool::Ellipse,
    Tool::Eraser,
    Tool::Select,
    Tool::Text,
];

fn drawing() -> ModeState {
    let mut modes = ModeState::new();
    let transition = modes.request(Mode::Draw).unwrap();
    modes.mode_applied(transition);
    assert_eq!(modes.mode(), Mode::Draw);
    modes
}

fn canvas() -> PressTarget {
    PressTarget { toolbar: None, resize_corner: false, handle: None, object: None }
}

#[test]
fn a_press_on_the_toolbar_never_starts_a_gesture_whatever_the_tool() {
    let modes = drawing();
    for tool in ALL_TOOLS {
        let on_button = PressTarget { toolbar: Some(ToolbarSpot::Button(Icon::Undo)), ..canvas() };
        assert_eq!(press(&modes, false, tool, on_button), PressOutcome::Armed(Icon::Undo));
        let on_frame = PressTarget { toolbar: Some(ToolbarSpot::Frame), object: Some(ObjectId::from_raw(1)), ..canvas() };
        assert_eq!(press(&modes, false, tool, on_frame), PressOutcome::Swallowed, "the gap is not a hole");
        let on_grip = PressTarget { toolbar: Some(ToolbarSpot::Grip), ..canvas() };
        assert_eq!(press(&modes, false, tool, on_grip), PressOutcome::MoveWindow);
    }
}

#[test]
fn the_resize_corner_comes_after_the_toolbar_and_before_the_tool() {
    let modes = drawing();
    let corner = PressTarget { resize_corner: true, object: Some(ObjectId::from_raw(4)), ..canvas() };
    assert_eq!(press(&modes, false, Tool::Pen, corner), PressOutcome::ResizeWindow);
    assert_eq!(press(&modes, false, Tool::Select, corner), PressOutcome::ResizeWindow);
    let both = PressTarget { toolbar: Some(ToolbarSpot::Frame), ..corner };
    assert_eq!(press(&modes, false, Tool::Pen, both), PressOutcome::Swallowed);
}

#[test]
fn each_tool_starts_its_own_gesture_on_the_canvas() {
    let modes = drawing();
    assert_eq!(press(&modes, false, Tool::Pen, canvas()), PressOutcome::Stroke(StrokeKind::Pen));
    assert_eq!(press(&modes, false, Tool::Highlighter, canvas()), PressOutcome::Stroke(StrokeKind::Highlighter));
    assert_eq!(press(&modes, false, Tool::Eraser, canvas()), PressOutcome::Sweep);
    assert_eq!(press(&modes, false, Tool::Rectangle, canvas()), PressOutcome::Drag(Tool::Rectangle));
    assert_eq!(press(&modes, false, Tool::Text, canvas()), PressOutcome::Drag(Tool::Text));
}

#[test]
fn the_select_tool_prefers_a_handle_then_an_object_then_drops_the_selection() {
    let modes = drawing();
    let object = Some(ObjectId::from_raw(7));
    let both = PressTarget { handle: Some(Corner::BottomRight), object, ..canvas() };
    assert_eq!(press(&modes, false, Tool::Select, both), PressOutcome::Scale(Corner::BottomRight));
    let just_object = PressTarget { object, ..canvas() };
    assert_eq!(press(&modes, false, Tool::Select, just_object), PressOutcome::Move(ObjectId::from_raw(7)));
    assert_eq!(press(&modes, false, Tool::Select, canvas()), PressOutcome::Deselect);
    assert_eq!(press(&modes, false, Tool::Pen, both), PressOutcome::Stroke(StrokeKind::Pen), "only select picks");
}

#[test]
fn no_press_starts_anything_outside_draw_or_while_a_held_button_is_ignored() {
    let hidden = ModeState::new();
    assert_eq!(press(&hidden, false, Tool::Pen, canvas()), PressOutcome::Ignored);
    let mut asking = ModeState::new();
    asking.request(Mode::Draw).unwrap();
    assert_eq!(press(&asking, false, Tool::Pen, canvas()), PressOutcome::Ignored, "not while a transition is in flight");
    let modes = drawing();
    let on_button = PressTarget { toolbar: Some(ToolbarSpot::Button(Icon::Pen)), ..canvas() };
    assert_eq!(press(&modes, true, Tool::Pen, on_button), PressOutcome::Ignored);
}

#[test]
fn a_button_acts_only_if_released_on_the_button_that_was_pressed() {
    assert_eq!(button_release(Icon::Undo, Some((Icon::Undo, Action::Undo))), Some(Action::Undo));
    assert_eq!(button_release(Icon::Undo, Some((Icon::Redo, Action::Redo))), None);
    assert_eq!(button_release(Icon::Undo, None), None);
}

#[test]
fn escape_undoes_one_thing_at_a_time() {
    assert_eq!(escape_step(Mode::Draw, true, true), EscapeStep::CancelGesture);
    assert_eq!(escape_step(Mode::Draw, false, true), EscapeStep::DropSelection);
    assert_eq!(escape_step(Mode::Draw, false, false), EscapeStep::LeaveDraw);
    assert_eq!(escape_step(Mode::PassThrough, true, true), EscapeStep::PassOn);
    assert_eq!(escape_step(Mode::Hidden, false, false), EscapeStep::PassOn);
}

#[test]
fn selection_keeps_only_objects_still_present() {
    let (a, b, c) = (ObjectId::from_raw(1), ObjectId::from_raw(2), ObjectId::from_raw(3));
    let mut selection = vec![c, a, b];
    keep_present(&mut selection, &[a, c]);
    assert_eq!(selection, vec![c, a]);
    keep_present(&mut selection, &[]);
    assert!(selection.is_empty());
}

#[test]
fn an_action_selects_only_its_own_tool() {
    assert!(Action::SelectTool(Tool::Pen).selects(Tool::Pen));
    assert!(!Action::SelectTool(Tool::Pen).selects(Tool::Eraser));
    assert!(!Action::Undo.selects(Tool::Pen));
}
