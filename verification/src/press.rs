//! What a press of the drawing button starts, what releasing a toolbar
//! button does, and what Escape undoes.
//!
//! Where the press landed is found by the program, which holds the geometry:
//! on the toolbar and where on it, on the surface's resize corner, on a
//! corner handle of the selection, or on an object. What that means is
//! decided here, in a fixed order. The toolbar comes first, so no tool can
//! ever draw over its own controls and the gaps between buttons are not holes
//! to draw through. The resize corner comes next, for the same reason. Only
//! then does the tool matter, and for the select tool a corner handle wins
//! over the object underneath it, or a selection could never be shrunk.
use vstd::prelude::*;
use crate::document::contains_id;
use crate::id::ObjectId;
use crate::modes::{Mode, ModeState};
use crate::object::StrokeKind;
use crate::tool::{Action, Corner, Icon, Tool};

verus! {

/// Where on the toolbar a press landed.
#[derive(Clone, Copy, Debug, PartialEq, Eq, Structural)]
pub enum ToolbarSpot {
    /// The handle that moves the window.
    Grip,
    /// A button.
    Button(Icon),
    /// The frame between and around the buttons.
    Frame,
}

/// Where a press landed, as the program's hit tests found it.
#[derive(Clone, Copy, Debug, PartialEq, Eq)]
pub struct PressTarget {
    /// Where on the toolbar, if the press is inside the toolbar's rectangle.
    pub toolbar: Option<ToolbarSpot>,
    /// Whether the press is on the resize corner, which exists once the
    /// surface's size is known.
    pub resize_corner: bool,
    /// The corner handle of the selection under the press, if something is
    /// selected and a handle is there.
    pub handle: Option<Corner>,
    /// The topmost object under the press, if any.
    pub object: Option<ObjectId>,
}

/// What a press starts.
#[derive(Clone, Copy, Debug, PartialEq, Eq, Structural)]
pub enum PressOutcome {
    /// Nothing: Draw is not in effect, a transition is in flight, or the
    /// press continues a button that was already held when Draw began.
    Ignored,
    /// The grip: the compositor moves the window, and the press is over as
    /// far as drawing goes.
    MoveWindow,
    /// A button, armed: it acts on release if the pointer is still on it.
    Armed(Icon),
    /// The toolbar's frame: the press is swallowed without arming anything.
    Swallowed,
    /// The resize corner: the compositor resizes the window.
    ResizeWindow,
    /// A corner handle: the selection is scaled from that corner.
    Scale(Corner),
    /// An object: it is selected if it was not, and the selection moves.
    Move(ObjectId),
    /// Empty space under the select tool: the selection is dropped.
    Deselect,
    /// The eraser starts a sweep.
    Sweep,
    /// A stroke tool starts a stroke.
    Stroke(StrokeKind),
    /// A shape tool, or the text tool, starts a drag from here.
    Drag(Tool),
}

/// Whether presses may start gestures: Draw is in effect and no transition
/// is in flight.
pub open spec fn takes_presses(modes: ModeState) -> bool {
    modes.effective_spec() == Mode::Draw && modes.pending_spec() is None
}

/// Whether the toolbar is on screen.
pub open spec fn toolbar_shown(modes: ModeState) -> bool {
    modes.effective_spec() == Mode::Draw || modes.effective_spec() == Mode::PassThrough
}

/// What a press on `target` starts with `tool` selected.
pub open spec fn press_outcome(
    takes: bool,
    ignoring_held_button: bool,
    shown: bool,
    tool: Tool,
    target: PressTarget,
) -> PressOutcome {
    if !takes || ignoring_held_button {
        PressOutcome::Ignored
    } else if shown && target.toolbar is Some {
        match target.toolbar.unwrap() {
            ToolbarSpot::Grip => PressOutcome::MoveWindow,
            ToolbarSpot::Button(icon) => PressOutcome::Armed(icon),
            ToolbarSpot::Frame => PressOutcome::Swallowed,
        }
    } else if shown && target.resize_corner {
        PressOutcome::ResizeWindow
    } else if tool == Tool::Select {
        match target.handle {
            Some(corner) => PressOutcome::Scale(corner),
            None => match target.object {
                Some(id) => PressOutcome::Move(id),
                None => PressOutcome::Deselect,
            },
        }
    } else if tool == Tool::Eraser {
        PressOutcome::Sweep
    } else if tool == Tool::Pen {
        PressOutcome::Stroke(StrokeKind::Pen)
    } else if tool == Tool::Highlighter {
        PressOutcome::Stroke(StrokeKind::Highlighter)
    } else {
        PressOutcome::Drag(tool)
    }
}

/// Decides what a press starts. `ignoring_held_button` is whether the
/// controller is still ignoring a button that was held when Draw began.
pub fn press(modes: &ModeState, ignoring_held_button: bool, tool: Tool, target: PressTarget) -> (outcome: PressOutcome)
    ensures
        outcome == press_outcome(takes_presses(*modes), ignoring_held_button, toolbar_shown(*modes), tool, target),
{
    if !modes.accepts_gestures() || ignoring_held_button {
        return PressOutcome::Ignored;
    }
    let mode = modes.mode();
    let shown = match mode {
        Mode::Draw | Mode::PassThrough => true,
        Mode::Hidden => false,
    };
    if shown {
        match target.toolbar {
            Some(ToolbarSpot::Grip) => return PressOutcome::MoveWindow,
            Some(ToolbarSpot::Button(icon)) => return PressOutcome::Armed(icon),
            Some(ToolbarSpot::Frame) => return PressOutcome::Swallowed,
            None => {},
        }
        if target.resize_corner {
            return PressOutcome::ResizeWindow;
        }
    }
    match tool {
        Tool::Select => match target.handle {
            Some(corner) => PressOutcome::Scale(corner),
            None => match target.object {
                Some(id) => PressOutcome::Move(id),
                None => PressOutcome::Deselect,
            },
        },
        Tool::Eraser => PressOutcome::Sweep,
        Tool::Pen => PressOutcome::Stroke(StrokeKind::Pen),
        Tool::Highlighter => PressOutcome::Stroke(StrokeKind::Highlighter),
        _ => PressOutcome::Drag(tool),
    }
}

/// What releasing the button does after a press armed toolbar button
/// `armed`, given the button now under the pointer, if any: that button's
/// action if it is the one that was pressed, and nothing otherwise, which is
/// how a user cancels a press by sliding off the button.
pub fn button_release(armed: Icon, under: Option<(Icon, Action)>) -> (action: Option<Action>)
    ensures
        action == (match under {
            Some((icon, act)) => if icon == armed {
                Some(act)
            } else {
                None
            },
            None => None,
        }),
{
    match under {
        Some((icon, act)) => if icon == armed {
            Some(act)
        } else {
            None
        },
        None => None,
    }
}

/// What one press of Escape undoes.
#[derive(Clone, Copy, Debug, PartialEq, Eq, Structural)]
pub enum EscapeStep {
    /// Outside Draw, Escape belongs to the application underneath.
    PassOn,
    /// The gesture in flight is cancelled, and nothing else happens.
    CancelGesture,
    /// The selection is dropped, and Draw is kept.
    DropSelection,
    /// Draw is left for pass-through.
    LeaveDraw,
}

/// What Escape undoes: one thing at a time, smallest first. A gesture goes
/// before a selection, and a selection before Draw itself.
pub open spec fn escape_spec(mode: Mode, gesturing: bool, selecting: bool) -> EscapeStep {
    if mode != Mode::Draw {
        EscapeStep::PassOn
    } else if gesturing {
        EscapeStep::CancelGesture
    } else if selecting {
        EscapeStep::DropSelection
    } else {
        EscapeStep::LeaveDraw
    }
}

/// Decides what Escape undoes in effective mode `mode`, with a gesture in
/// flight or not and something selected or not.
pub fn escape_step(mode: Mode, gesturing: bool, selecting: bool) -> (step: EscapeStep)
    ensures
        step == escape_spec(mode, gesturing, selecting),
{
    match mode {
        Mode::Draw => {
            if gesturing {
                EscapeStep::CancelGesture
            } else if selecting {
                EscapeStep::DropSelection
            } else {
                EscapeStep::LeaveDraw
            }
        },
        Mode::Hidden | Mode::PassThrough => EscapeStep::PassOn,
    }
}

/// The selection once the document holds only `present`: every selected
/// object that has gone is dropped, and the rest keep their order.
pub open spec fn still_selected(selection: Seq<ObjectId>, present: Seq<ObjectId>) -> Seq<ObjectId> {
    selection.filter(|id: ObjectId| present.contains(id))
}

/// Drops from the selection every object that has left the document, which
/// now holds `present`.
pub fn keep_present(selection: &mut Vec<ObjectId>, present: &[ObjectId])
    ensures
        final(selection)@ == still_selected(old(selection)@, present@),
{
    let ghost before = selection@;
    let mut kept: Vec<ObjectId> = Vec::new();
    let mut i: usize = 0;
    while i < selection.len()
        invariant
            selection@ == before,
            i <= before.len(),
            kept@ == still_selected(before.take(i as int), present@),
        decreases before.len() - i,
    {
        let id = selection[i];
        proof {
            reveal(Seq::filter);
        }
        assert(before.take(i as int + 1).drop_last() =~= before.take(i as int));
        assert(before.take(i as int + 1).last() == id);
        if contains_id(present, id) {
            kept.push(id);
        }
        i = i + 1;
    }
    assert(before.take(before.len() as int) =~= before);
    *selection = kept;
}

/// Outside Draw, or while a transition is in flight, no press starts
/// anything, whatever it landed on and whatever the tool.
pub proof fn law_nothing_starts_unless_draw_is_in_effect(modes: ModeState, ignoring: bool, tool: Tool, target: PressTarget)
    requires
        !takes_presses(modes),
    ensures
        press_outcome(takes_presses(modes), ignoring, toolbar_shown(modes), tool, target) == PressOutcome::Ignored,
{
}

/// A press on the toolbar belongs to the toolbar, whatever the tool: it
/// moves the window, arms a button, or is swallowed, and never starts a
/// stroke, a sweep, a drag or a change to the selection.
pub proof fn law_the_toolbar_takes_its_presses(modes: ModeState, tool: Tool, target: PressTarget)
    requires
        takes_presses(modes),
        target.toolbar is Some,
    ensures
        ({
            let outcome = press_outcome(takes_presses(modes), false, toolbar_shown(modes), tool, target);
            outcome is MoveWindow || outcome is Armed || outcome is Swallowed
        }),
{
}

/// On the canvas each tool starts its own gesture: the pen and the
/// highlighter start strokes of their own kind, the eraser a sweep, and every
/// shape tool, and the text tool, a drag carrying that very tool.
pub proof fn law_each_tool_starts_its_own_gesture(modes: ModeState, tool: Tool, target: PressTarget)
    requires
        takes_presses(modes),
        target.toolbar is None,
        !target.resize_corner,
        tool != Tool::Select,
    ensures
        ({
            let outcome = press_outcome(takes_presses(modes), false, toolbar_shown(modes), tool, target);
            &&& tool == Tool::Pen ==> outcome == PressOutcome::Stroke(StrokeKind::Pen)
            &&& tool == Tool::Highlighter ==> outcome == PressOutcome::Stroke(StrokeKind::Highlighter)
            &&& tool == Tool::Eraser ==> outcome == PressOutcome::Sweep
            &&& tool != Tool::Pen && tool != Tool::Highlighter && tool != Tool::Eraser ==> outcome
                == PressOutcome::Drag(tool)
        }),
{
}

/// With the select tool, a corner handle wins over the object under it.
pub proof fn law_a_handle_wins_over_the_object_under_it(modes: ModeState, corner: Corner, target: PressTarget)
    requires
        takes_presses(modes),
        target.toolbar is None,
        !target.resize_corner,
        target.handle == Some(corner),
    ensures
        press_outcome(takes_presses(modes), false, toolbar_shown(modes), Tool::Select, target) == PressOutcome::Scale(corner),
{
}

/// Only the select tool picks things: with any other tool a press never
/// selects, moves, scales or deselects.
pub proof fn law_only_the_select_tool_picks(modes: ModeState, ignoring: bool, tool: Tool, target: PressTarget)
    requires
        tool != Tool::Select,
    ensures
        ({
            let outcome = press_outcome(takes_presses(modes), ignoring, toolbar_shown(modes), tool, target);
            !(outcome is Move || outcome is Deselect || outcome is Scale)
        }),
{
}

/// Escape never leaves Draw while a gesture or a selection is there to undo
/// first, and outside Draw it does nothing here.
pub proof fn law_escape_undoes_the_smallest_thing_first(mode: Mode, gesturing: bool, selecting: bool)
    ensures
        escape_spec(mode, gesturing, selecting) == EscapeStep::LeaveDraw ==> mode == Mode::Draw && !gesturing
            && !selecting,
        mode == Mode::Draw && gesturing ==> escape_spec(mode, gesturing, selecting) == EscapeStep::CancelGesture,
        mode != Mode::Draw ==> escape_spec(mode, gesturing, selecting) == EscapeStep::PassOn,
{
}

} // verus!
