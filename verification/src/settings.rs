//! Each tool's colour, width and opacity, as positions in fixed tables.
//!
//! A width or an opacity is a step in a table rather than a free number, so a
//! user holding the thicker key walks up the table and stops at its end,
//! rather than wrapping round to the thinnest line.
use vstd::prelude::*;
use crate::style::Rgb;
use crate::tool::Tool;

verus! {

/// How many colours the palette holds.
pub const PALETTE_LEN: usize = 6;
/// How many steps the width table holds.
pub const WIDTH_STEPS: usize = 7;
/// How many steps the opacity table holds. None of them is zero: a fully
/// invisible tool is a trap.
pub const OPACITY_STEPS: usize = 5;

/// The default palette, chosen to stay legible over dark and light windows.
pub open spec fn palette_spec() -> Seq<Rgb> {
    seq![
        Rgb { r: 255, g: 0, b: 255 },
        Rgb { r: 255, g: 64, b: 64 },
        Rgb { r: 255, g: 208, b: 0 },
        Rgb { r: 64, g: 224, b: 96 },
        Rgb { r: 64, g: 176, b: 255 },
        Rgb { r: 255, g: 255, b: 255 },
    ]
}

/// The palette, in order.
pub fn palette() -> (colours: [Rgb; 6])
    ensures
        colours@ == palette_spec(),
{
    let colours = [
        Rgb { r: 255, g: 0, b: 255 },
        Rgb { r: 255, g: 64, b: 64 },
        Rgb { r: 255, g: 208, b: 0 },
        Rgb { r: 64, g: 224, b: 96 },
        Rgb { r: 64, g: 176, b: 255 },
        Rgb { r: 255, g: 255, b: 255 },
    ];
    assert(colours@ =~= palette_spec());
    colours
}

/// The position of a colour in the palette, if it is there.
pub fn palette_index(colour: Rgb) -> (index: Option<usize>)
    ensures
        match index {
            Some(i) => i < PALETTE_LEN && palette_spec()[i as int] == colour && forall|j: int|
                0 <= j < i ==> palette_spec()[j] != colour,
            None => forall|j: int| 0 <= j < PALETTE_LEN ==> palette_spec()[j] != colour,
        },
{
    let colours = palette();
    let mut i: usize = 0;
    while i < PALETTE_LEN
        invariant
            i <= PALETTE_LEN,
            colours@ == palette_spec(),
            forall|j: int| 0 <= j < i ==> palette_spec()[j] != colour,
        decreases PALETTE_LEN - i,
    {
        if colours[i] == colour {
            return Some(i);
        }
        i = i + 1;
    }
    None
}

/// `value` held within `low..=high`.
pub open spec fn clamped(value: int, low: int, high: int) -> int {
    if value < low {
        low
    } else if value > high {
        high
    } else {
        value
    }
}

/// One tool's settings, as table positions.
#[derive(Clone, Copy, Debug, PartialEq, Eq, Structural)]
pub struct ToolState {
    pub colour: usize,
    pub width: usize,
    pub opacity: usize,
}

impl ToolState {
    /// Every position lies inside its table.
    pub open spec fn wf(self) -> bool {
        &&& self.colour < PALETTE_LEN
        &&& self.width < WIDTH_STEPS
        &&& self.opacity < OPACITY_STEPS
    }

    /// Moves `steps` through a table of `len` entries, stopping at either end
    /// rather than wrapping.
    pub fn step(current: usize, steps: i32, len: usize) -> (position: usize)
        requires
            1 <= len <= i64::MAX,
            current <= i64::MAX,
            current + steps <= i64::MAX,
        ensures
            position == clamped(current + steps, 0, len - 1),
    {
        let target: i64 = current as i64 + steps as i64;
        let last: i64 = len as i64 - 1;
        if target < 0 {
            0
        } else if target > last {
            len - 1
        } else {
            target as usize
        }
    }

    /// The next colour in the palette, wrapping.
    pub fn cycle_colour(&mut self)
        requires
            old(self).wf(),
        ensures
            final(self).wf(),
            *final(self) == (ToolState { colour: ((old(self).colour + 1) % (PALETTE_LEN as int)) as usize, ..*old(self) }),
    {
        self.colour = (self.colour + 1) % PALETTE_LEN;
    }

    /// Takes a palette colour. An off-palette colour is ignored rather than
    /// silently replaced with something else.
    pub fn set_colour(&mut self, colour: Rgb)
        requires
            old(self).wf(),
        ensures
            final(self).wf(),
            final(self).width == old(self).width,
            final(self).opacity == old(self).opacity,
            palette_spec().contains(colour) ==> palette_spec()[final(self).colour as int] == colour,
            !palette_spec().contains(colour) ==> final(self).colour == old(self).colour,
    {
        match palette_index(colour) {
            Some(index) => {
                self.colour = index;
            },
            None => {
                assert(!palette_spec().contains(colour));
            },
        }
    }

    /// Steps the width up or down its table.
    pub fn adjust_width(&mut self, steps: i32)
        requires
            old(self).wf(),
        ensures
            final(self).wf(),
            *final(self) == (ToolState { width: clamped(old(self).width + steps, 0, WIDTH_STEPS - 1) as usize, ..*old(self) }),
    {
        self.width = ToolState::step(self.width, steps, WIDTH_STEPS);
    }

    /// Steps the opacity up or down its table.
    pub fn adjust_opacity(&mut self, steps: i32)
        requires
            old(self).wf(),
        ensures
            final(self).wf(),
            *final(self) == (ToolState { opacity: clamped(old(self).opacity + steps, 0, OPACITY_STEPS - 1) as usize, ..*old(self) }),
    {
        self.opacity = ToolState::step(self.opacity, steps, OPACITY_STEPS);
    }
}

/// The selected tool and every tool's settings.
///
/// The four shape tools share one set of settings: they are one pen held
/// differently, so switching between a rectangle and an arrow does not change
/// the colour under the user. Only the eraser's width means anything.
#[derive(Clone, Copy, Debug, PartialEq, Eq, Structural)]
pub struct Tools {
    pub tool: Tool,
    pub pen: ToolState,
    pub highlighter: ToolState,
    pub shape: ToolState,
    pub eraser: ToolState,
}

impl Tools {
    pub open spec fn wf(self) -> bool {
        &&& self.pen.wf()
        &&& self.highlighter.wf()
        &&& self.shape.wf()
        &&& self.eraser.wf()
    }

    /// The settings that belong to `tool`.
    pub open spec fn settings_of(self, tool: Tool) -> ToolState {
        match tool {
            Tool::Pen => self.pen,
            Tool::Highlighter => self.highlighter,
            Tool::Eraser => self.eraser,
            _ => self.shape,
        }
    }

    /// `self` with the settings that belong to `tool` replaced.
    pub open spec fn with_settings(self, tool: Tool, state: ToolState) -> Tools {
        match tool {
            Tool::Pen => Tools { pen: state, ..self },
            Tool::Highlighter => Tools { highlighter: state, ..self },
            Tool::Eraser => Tools { eraser: state, ..self },
            _ => Tools { shape: state, ..self },
        }
    }

    /// The pen, selected, with the defaults: the pen opaque and of middling
    /// width, the highlighter wider and translucent.
    pub fn new() -> (tools: Self)
        ensures
            tools.wf(),
            tools.tool == Tool::Pen,
            tools.pen == (ToolState { colour: 0, width: 2, opacity: 4 }),
            tools.highlighter == (ToolState { colour: 2, width: 5, opacity: 1 }),
            tools.shape == (ToolState { colour: 0, width: 2, opacity: 4 }),
            tools.eraser == (ToolState { colour: 0, width: 4, opacity: 4 }),
    {
        Tools {
            tool: Tool::Pen,
            pen: ToolState { colour: 0, width: 2, opacity: OPACITY_STEPS - 1 },
            highlighter: ToolState { colour: 2, width: 5, opacity: 1 },
            shape: ToolState { colour: 0, width: 2, opacity: OPACITY_STEPS - 1 },
            eraser: ToolState { colour: 0, width: 4, opacity: OPACITY_STEPS - 1 },
        }
    }

    /// The selected tool's settings.
    pub fn current(&self) -> (state: ToolState)
        ensures
            state == self.settings_of(self.tool),
    {
        match self.tool {
            Tool::Pen => self.pen,
            Tool::Highlighter => self.highlighter,
            Tool::Eraser => self.eraser,
            _ => self.shape,
        }
    }

    /// Replaces the selected tool's settings.
    pub fn set_current(&mut self, state: ToolState)
        requires
            old(self).wf(),
            state.wf(),
        ensures
            final(self).wf(),
            *final(self) == old(self).with_settings(old(self).tool, state),
    {
        match self.tool {
            Tool::Pen => self.pen = state,
            Tool::Highlighter => self.highlighter = state,
            Tool::Eraser => self.eraser = state,
            _ => self.shape = state,
        }
    }

    /// Selects a tool. Settings are untouched, and a gesture in flight keeps
    /// the tool and style it started with.
    pub fn select(&mut self, tool: Tool)
        ensures
            *final(self) == (Tools { tool, ..*old(self) }),
    {
        self.tool = tool;
    }
}

/// `state` after the next-colour key has been pressed `presses` times.
pub open spec fn after_cycles(state: ToolState, presses: nat) -> ToolState
    decreases presses,
{
    if presses == 0 {
        state
    } else {
        let before = after_cycles(state, (presses - 1) as nat);
        ToolState { colour: ((before.colour + 1) % (PALETTE_LEN as int)) as usize, ..before }
    }
}

proof fn lemma_cycles_advance(state: ToolState, presses: nat)
    requires
        state.wf(),
    ensures
        after_cycles(state, presses) == (ToolState {
            colour: ((state.colour + presses) % (PALETTE_LEN as int)) as usize,
            ..state
        }),
    decreases presses,
{
    if presses > 0 {
        lemma_cycles_advance(state, (presses - 1) as nat);
        let c = state.colour as int;
        let p = presses as int;
        assert(((c + p - 1) % 6 + 1) % 6 == (c + p) % 6) by (nonlinear_arith)
            requires
                0 <= c,
                1 <= p,
        ;
    }
}

/// The palette is a cycle: pressing the next-colour key once for every
/// palette entry brings the colour back to where it started, and every
/// press before that shows a different colour.
pub proof fn law_colours_form_a_cycle(state: ToolState)
    requires
        state.wf(),
    ensures
        after_cycles(state, PALETTE_LEN as nat) == state,
        forall|presses: nat| 0 < presses < PALETTE_LEN ==> #[trigger] after_cycles(state, presses).colour != state.colour,
{
    lemma_cycles_advance(state, PALETTE_LEN as nat);
    assert((state.colour + 6) % 6 == state.colour as int);
    assert forall|presses: nat| 0 < presses < PALETTE_LEN implies #[trigger] after_cycles(state, presses).colour != state.colour by {
        lemma_cycles_advance(state, presses);
        assert((state.colour + presses) % 6 != state.colour as int);
    }
}

/// Whether two tools draw with the same settings: the shape tools share
/// one set, every other tool has its own.
pub open spec fn share_settings(first: Tool, second: Tool) -> bool {
    match (first, second) {
        (Tool::Pen, Tool::Pen) | (Tool::Highlighter, Tool::Highlighter) | (Tool::Eraser, Tool::Eraser) => true,
        (Tool::Pen, _) | (_, Tool::Pen) | (Tool::Highlighter, _) | (_, Tool::Highlighter) | (Tool::Eraser, _) | (
            _,
            Tool::Eraser,
        ) => false,
        _ => true,
    }
}

/// Each tool keeps its own settings: changing the settings while one tool is
/// selected leaves every tool that does not share them as it was, and
/// selecting a tool changes nobody's settings.
pub proof fn law_each_tool_keeps_its_own_settings(tools: Tools, changed: Tool, state: ToolState, other: Tool)
    ensures
        !share_settings(changed, other) ==> tools.with_settings(changed, state).settings_of(other) == tools.settings_of(other),
        share_settings(changed, other) ==> tools.with_settings(changed, state).settings_of(other) == state,
        (Tools { tool: changed, ..tools }).settings_of(other) == tools.settings_of(other),
{
}

} // verus!
