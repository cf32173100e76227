//! The vocabulary of the controller: tools, actions, corners, cursors and
//! toolbar icons.
use vstd::prelude::*;
use crate::object::StrokeKind;
use crate::style::Rgb;

verus! {

/// A drawing tool.
#[derive(Clone, Copy, Debug, PartialEq, Eq, Structural)]
pub enum Tool {
    /// Opaque freehand ink.
    Pen,
    /// Wide translucent ink, whose opacity applies to the completed stroke as
    /// a whole.
    Highlighter,
    Line,
    /// A line with a head at the end the drag finished on.
    Arrow,
    Rectangle,
    Ellipse,
    /// Removes whole objects its sweep touches.
    Eraser,
    /// Picks an object up to move, resize or delete it.
    Select,
    /// Places a caret and types.
    Text,
}

impl Tool {
    /// Whether this tool follows the pointer, rather than being defined by
    /// where a drag started and ended.
    pub fn is_freehand(self) -> (freehand: bool)
        ensures
            freehand == (self == Tool::Pen || self == Tool::Highlighter || self == Tool::Eraser),
    {
        match self {
            Tool::Pen | Tool::Highlighter | Tool::Eraser => true,
            _ => false,
        }
    }

    /// Whether this tool edits existing objects rather than creating them.
    pub fn is_select(self) -> (select: bool)
        ensures
            select == (self == Tool::Select),
    {
        match self {
            Tool::Select => true,
            _ => false,
        }
    }

    /// How a stroke drawn with this tool is stored, for the stroke tools.
    pub fn stroke_kind(self) -> (kind: Option<StrokeKind>)
        ensures
            kind == (match self {
                Tool::Pen => Some(StrokeKind::Pen),
                Tool::Highlighter => Some(StrokeKind::Highlighter),
                _ => None::<StrokeKind>,
            }),
    {
        match self {
            Tool::Pen => Some(StrokeKind::Pen),
            Tool::Highlighter => Some(StrokeKind::Highlighter),
            _ => None,
        }
    }
}

/// Which corner of the selection is being dragged.
#[derive(Clone, Copy, Debug, PartialEq, Eq, Structural)]
pub enum Corner {
    TopLeft,
    TopRight,
    BottomLeft,
    BottomRight,
}

impl Corner {
    /// The corner diagonally opposite, which stays put during a resize.
    pub fn opposite(self) -> (other: Self)
        ensures
            other == (match self {
                Corner::TopLeft => Corner::BottomRight,
                Corner::TopRight => Corner::BottomLeft,
                Corner::BottomLeft => Corner::TopRight,
                Corner::BottomRight => Corner::TopLeft,
            }),
    {
        match self {
            Corner::TopLeft => Corner::BottomRight,
            Corner::TopRight => Corner::BottomLeft,
            Corner::BottomLeft => Corner::TopRight,
            Corner::BottomRight => Corner::TopLeft,
        }
    }

    /// Every corner, clockwise from the top left except that the bottom row
    /// runs left to right.
    pub fn all() -> (corners: [Corner; 4])
        ensures
            corners@ == seq![Corner::TopLeft, Corner::TopRight, Corner::BottomLeft, Corner::BottomRight],
    {
        let corners = [Corner::TopLeft, Corner::TopRight, Corner::BottomLeft, Corner::BottomRight];
        assert(corners@ =~= seq![Corner::TopLeft, Corner::TopRight, Corner::BottomLeft, Corner::BottomRight]);
        corners
    }
}

/// The pointer shape the controller wants shown.
#[derive(Clone, Copy, Debug, PartialEq, Eq, Structural)]
pub enum Cursor {
    /// The system arrow, over the toolbar and in pass-through.
    Default,
    /// An I-beam, for the text tool.
    Text,
    /// A crosshair, for the drawing tools.
    Crosshair,
    /// Over the resize corner.
    ResizeBottomRight,
    /// Over the grip or a selection being dragged.
    Move,
}

/// What a toolbar button does, and how it is drawn. Named for the concept
/// rather than the picture.
#[derive(Clone, Copy, Debug, PartialEq, Eq, Structural)]
pub enum Icon {
    /// Opens the compositor's own window menu, where "Always on Top" lives.
    WindowMenu,
    Select,
    Pen,
    Highlighter,
    Line,
    Arrow,
    Rectangle,
    Ellipse,
    Eraser,
    Delete,
    Undo,
    Redo,
    Clear,
    PassThrough,
    Hide,
    /// Shrinks the overlay to just the toolbar, and back.
    Park,
    /// Leaves the application.
    Quit,
    /// Places a caret and types.
    Text,
    /// Shows the row of colour swatches.
    Color,
    /// Steps the platform's magnifier through its zoom levels and off.
    Zoom,
}

/// Something the user asked for, however it was triggered: a shortcut, a
/// toolbar button, or a command from another process all arrive here
/// identically.
#[derive(Clone, Copy, Debug, PartialEq, Eq, Structural)]
pub enum Action {
    /// Hidden or PassThrough to Draw; Draw to PassThrough.
    ToggleDraw,
    /// Any visible mode to Hidden; Hidden to PassThrough.
    ToggleVisibility,
    /// Request Draw directly.
    EnterDraw,
    /// Request PassThrough directly, whatever is desired now.
    EnterPassThrough,
    /// Request Hidden directly, keeping the ink in memory.
    EnterHidden,
    /// Cancel a gesture if one is in flight, otherwise leave Draw.
    Escape,
    /// Withdraw everything now, without waiting for anything.
    EmergencyHide,
    SelectTool(Tool),
    /// Set the current tool's colour; only palette colours are taken.
    SetColor(Rgb),
    /// Move to the next colour in the palette, wrapping.
    CycleColor,
    /// Step the current tool's width up or down its table.
    AdjustWidth(i32),
    /// Step the current tool's opacity up or down its table.
    AdjustOpacity(i32),
    Undo,
    Redo,
    /// Remove every object on the active output, as one undoable edit.
    Clear,
    /// Remove whatever is selected.
    DeleteSelection,
    /// Delete the character before the caret in the text being typed.
    BackspaceText,
    /// Start a new line in the text being typed.
    NewlineText,
    /// Shrink the overlay to its toolbar, and back.
    TogglePark,
    /// Step the magnifier to its next level, then off.
    CycleZoom,
    /// Turn the magnifier off at once.
    ZoomOff,
    /// Write the document to the session file.
    Save,
    /// Replace the document with the session file's contents.
    Load,
    /// Open the compositor's window menu.
    ShowWindowMenu,
    /// Open or close the row of colour swatches.
    ToggleColorPicker,
    /// Leave the application.
    Quit,
}

impl Action {
    /// Whether this action selects `tool`, which is what marks a toolbar
    /// button as the selected tool: only tool buttons are ever marked.
    pub fn selects(self, tool: Tool) -> (selects: bool)
        ensures
            selects == (self == Action::SelectTool(tool)),
    {
        match self {
            Action::SelectTool(selected) => selected == tool,
            _ => false,
        }
    }
}

impl Icon {
    /// The words a button shows, with its key.
    pub open spec fn label_text(self) -> Seq<char> {
        match self {
            Icon::WindowMenu => "ALWAYS ON TOP (T)"@,
            Icon::Select => "SELECT (S)"@,
            Icon::Pen => "PEN (1)"@,
            Icon::Highlighter => "HIGHLIGHTER (2)"@,
            Icon::Line => "LINE (3)"@,
            Icon::Arrow => "ARROW (4)"@,
            Icon::Rectangle => "RECTANGLE (5)"@,
            Icon::Ellipse => "ELLIPSE (6)"@,
            Icon::Text => "TEXT (9)"@,
            Icon::Eraser => "ERASER (E)"@,
            Icon::Color => "COLOUR (C CYCLES)"@,
            Icon::Delete => "DELETE SELECTED (DEL)"@,
            Icon::Undo => "UNDO (U)"@,
            Icon::Redo => "REDO (R)"@,
            Icon::Clear => "CLEAR ALL (X)"@,
            Icon::PassThrough => "PASS THROUGH (P)"@,
            Icon::Park => "SHRINK TO TOOLBAR (G)"@,
            Icon::Hide => "HIDE (H)"@,
            Icon::Quit => "SAVE AND QUIT (Q)"@,
            Icon::Zoom => "ZOOM 2X 3X 4X (Z), OFF (0)"@,
        }
    }

    /// The words a button shows, with its key.
    pub fn label(self) -> (label: &'static str)
        ensures
            label@ == self.label_text(),
    {
        match self {
            Icon::WindowMenu => "ALWAYS ON TOP (T)",
            Icon::Select => "SELECT (S)",
            Icon::Pen => "PEN (1)",
            Icon::Highlighter => "HIGHLIGHTER (2)",
            Icon::Line => "LINE (3)",
            Icon::Arrow => "ARROW (4)",
            Icon::Rectangle => "RECTANGLE (5)",
            Icon::Ellipse => "ELLIPSE (6)",
            Icon::Text => "TEXT (9)",
            Icon::Eraser => "ERASER (E)",
            Icon::Color => "COLOUR (C CYCLES)",
            Icon::Delete => "DELETE SELECTED (DEL)",
            Icon::Undo => "UNDO (U)",
            Icon::Redo => "REDO (R)",
            Icon::Clear => "CLEAR ALL (X)",
            Icon::PassThrough => "PASS THROUGH (P)",
            Icon::Park => "SHRINK TO TOOLBAR (G)",
            Icon::Hide => "HIDE (H)",
            Icon::Quit => "SAVE AND QUIT (Q)",
            Icon::Zoom => "ZOOM 2X 3X 4X (Z), OFF (0)",
        }
    }
}

/// The toolbar's buttons without zoom, in order: tools first, then history,
/// then the ways out, grouped by what the user is thinking about rather than
/// by how often each is pressed.
pub open spec fn plain_toolbar() -> Seq<(Icon, Action)> {
    seq![
        (Icon::Select, Action::SelectTool(Tool::Select)),
        (Icon::Pen, Action::SelectTool(Tool::Pen)),
        (Icon::Highlighter, Action::SelectTool(Tool::Highlighter)),
        (Icon::Line, Action::SelectTool(Tool::Line)),
        (Icon::Arrow, Action::SelectTool(Tool::Arrow)),
        (Icon::Rectangle, Action::SelectTool(Tool::Rectangle)),
        (Icon::Ellipse, Action::SelectTool(Tool::Ellipse)),
        (Icon::Text, Action::SelectTool(Tool::Text)),
        (Icon::Eraser, Action::SelectTool(Tool::Eraser)),
        (Icon::Color, Action::ToggleColorPicker),
        (Icon::Delete, Action::DeleteSelection),
        (Icon::Undo, Action::Undo),
        (Icon::Redo, Action::Redo),
        (Icon::Clear, Action::Clear),
        (Icon::WindowMenu, Action::ShowWindowMenu),
        (Icon::PassThrough, Action::ToggleDraw),
        (Icon::Park, Action::TogglePark),
        (Icon::Hide, Action::ToggleVisibility),
        (Icon::Quit, Action::Quit),
    ]
}

/// The toolbar's buttons, with zoom among the view controls, before pass
/// through, only where the platform has a magnifier.
pub open spec fn toolbar_spec(zoom: bool) -> Seq<(Icon, Action)> {
    if zoom {
        plain_toolbar().take(15).push((Icon::Zoom, Action::CycleZoom)) + plain_toolbar().skip(15)
    } else {
        plain_toolbar()
    }
}

/// The toolbar's buttons and what each does, in order.
pub fn toolbar_entries(zoom: bool) -> (entries: Vec<(Icon, Action)>)
    ensures
        entries@ == toolbar_spec(zoom),
{
    let mut entries: Vec<(Icon, Action)> = Vec::new();
    entries.push((Icon::Select, Action::SelectTool(Tool::Select)));
    entries.push((Icon::Pen, Action::SelectTool(Tool::Pen)));
    entries.push((Icon::Highlighter, Action::SelectTool(Tool::Highlighter)));
    entries.push((Icon::Line, Action::SelectTool(Tool::Line)));
    entries.push((Icon::Arrow, Action::SelectTool(Tool::Arrow)));
    entries.push((Icon::Rectangle, Action::SelectTool(Tool::Rectangle)));
    entries.push((Icon::Ellipse, Action::SelectTool(Tool::Ellipse)));
    entries.push((Icon::Text, Action::SelectTool(Tool::Text)));
    entries.push((Icon::Eraser, Action::SelectTool(Tool::Eraser)));
    entries.push((Icon::Color, Action::ToggleColorPicker));
    entries.push((Icon::Delete, Action::DeleteSelection));
    entries.push((Icon::Undo, Action::Undo));
    entries.push((Icon::Redo, Action::Redo));
    entries.push((Icon::Clear, Action::Clear));
    entries.push((Icon::WindowMenu, Action::ShowWindowMenu));
    if zoom {
        entries.push((Icon::Zoom, Action::CycleZoom));
    }
    entries.push((Icon::PassThrough, Action::ToggleDraw));
    entries.push((Icon::Park, Action::TogglePark));
    entries.push((Icon::Hide, Action::ToggleVisibility));
    entries.push((Icon::Quit, Action::Quit));
    assert(entries@ =~= toolbar_spec(zoom));
    entries
}

/// What each toolbar icon does, by its name: a tool's icon selects that
/// tool, and every other icon does what it is called.
pub open spec fn named_action(icon: Icon) -> Action {
    match icon {
        Icon::WindowMenu => Action::ShowWindowMenu,
        Icon::Select => Action::SelectTool(Tool::Select),
        Icon::Pen => Action::SelectTool(Tool::Pen),
        Icon::Highlighter => Action::SelectTool(Tool::Highlighter),
        Icon::Line => Action::SelectTool(Tool::Line),
        Icon::Arrow => Action::SelectTool(Tool::Arrow),
        Icon::Rectangle => Action::SelectTool(Tool::Rectangle),
        Icon::Ellipse => Action::SelectTool(Tool::Ellipse),
        Icon::Text => Action::SelectTool(Tool::Text),
        Icon::Eraser => Action::SelectTool(Tool::Eraser),
        Icon::Delete => Action::DeleteSelection,
        Icon::Undo => Action::Undo,
        Icon::Redo => Action::Redo,
        Icon::Clear => Action::Clear,
        Icon::PassThrough => Action::ToggleDraw,
        Icon::Hide => Action::ToggleVisibility,
        Icon::Park => Action::TogglePark,
        Icon::Quit => Action::Quit,
        Icon::Color => Action::ToggleColorPicker,
        Icon::Zoom => Action::CycleZoom,
    }
}

/// Every button does what its icon names, with or without zoom: the undo
/// button undoes, the redo button redoes, a tool's button selects that
/// tool, and so on. No two buttons share an icon.
pub proof fn law_every_button_does_what_its_icon_names(zoom: bool)
    ensures
        forall|i: int| 0 <= i < toolbar_spec(zoom).len() ==> (#[trigger] toolbar_spec(zoom)[i]).1 == named_action(
            toolbar_spec(zoom)[i].0,
        ),
        forall|i: int, j: int| 0 <= i < j < toolbar_spec(zoom).len() ==> (#[trigger] toolbar_spec(zoom)[i]).0 != (
        #[trigger] toolbar_spec(zoom)[j]).0,
{
    let t = toolbar_spec(zoom);
    if zoom {
        assert(t =~= seq![
            (Icon::Select, Action::SelectTool(Tool::Select)),
            (Icon::Pen, Action::SelectTool(Tool::Pen)),
            (Icon::Highlighter, Action::SelectTool(Tool::Highlighter)),
            (Icon::Line, Action::SelectTool(Tool::Line)),
            (Icon::Arrow, Action::SelectTool(Tool::Arrow)),
            (Icon::Rectangle, Action::SelectTool(Tool::Rectangle)),
            (Icon::Ellipse, Action::SelectTool(Tool::Ellipse)),
            (Icon::Text, Action::SelectTool(Tool::Text)),
            (Icon::Eraser, Action::SelectTool(Tool::Eraser)),
            (Icon::Color, Action::ToggleColorPicker),
            (Icon::Delete, Action::DeleteSelection),
            (Icon::Undo, Action::Undo),
            (Icon::Redo, Action::Redo),
            (Icon::Clear, Action::Clear),
            (Icon::WindowMenu, Action::ShowWindowMenu),
            (Icon::Zoom, Action::CycleZoom),
            (Icon::PassThrough, Action::ToggleDraw),
            (Icon::Park, Action::TogglePark),
            (Icon::Hide, Action::ToggleVisibility),
            (Icon::Quit, Action::Quit),
        ]);
    }
}

/// A platform without a magnifier shows no zoom button; offering zoom adds
/// exactly that one button, which cycles the zoom, and keeps every other.
pub proof fn law_zoom_adds_one_button()
    ensures
        toolbar_spec(true).len() == toolbar_spec(false).len() + 1,
        forall|i: int| 0 <= i < toolbar_spec(false).len() ==> (#[trigger] toolbar_spec(false)[i]).0 != Icon::Zoom,
        toolbar_spec(true)[15] == (Icon::Zoom, Action::CycleZoom),
        toolbar_spec(true).remove(15) == toolbar_spec(false),
{
    assert(toolbar_spec(true).remove(15) =~= toolbar_spec(false));
}

} // verus!
