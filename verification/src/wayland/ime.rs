//! The input method's double-buffered events.
//!
//! The engine sends a composition, a commit and a deletion of surrounding
//! text in any order, and none of them take effect until it says it is done.
//! Applying them as they arrive would show half-applied states, so they are
//! gathered here and turned into steps in the protocol's order when the
//! engine is done.
use vstd::prelude::*;

verus! {

/// What the engine has said since it was last done.
#[derive(Default)]
pub struct Pending {
    pub preedit: Option<String>,
    pub commit: Option<String>,
    pub delete: Option<(u32, u32)>,
}

/// One thing the editor is told when the engine is done.
#[derive(Clone, Debug, PartialEq, Eq)]
pub enum ImeStep {
    /// Delete this many characters before and after the caret.
    DeleteSurrounding { before: u32, after: u32 },
    /// Insert finished text.
    Commit(String),
    /// Show this composition, which may be empty.
    Preedit(String),
}

/// A step as text.
pub enum StepView {
    DeleteSurrounding(u32, u32),
    Commit(Seq<char>),
    Preedit(Seq<char>),
}

impl View for ImeStep {
    type V = StepView;

    open spec fn view(&self) -> StepView {
        match self {
            ImeStep::DeleteSurrounding { before, after } => StepView::DeleteSurrounding(*before, *after),
            ImeStep::Commit(text) => StepView::Commit(text@),
            ImeStep::Preedit(text) => StepView::Preedit(text@),
        }
    }
}

/// The steps a done event makes of what was gathered, in the protocol's
/// order: the deletion first, then the commit, then the composition that
/// remains. The composition is always sent, empty when there is none: an
/// engine clears a composition by sending none, and the editor has to
/// notice.
pub open spec fn steps_of(
    delete: Option<(u32, u32)>,
    commit: Option<Seq<char>>,
    preedit: Option<Seq<char>>,
) -> Seq<StepView> {
    let deleting = match delete {
        Some((before, after)) => seq![StepView::DeleteSurrounding(before, after)],
        None => Seq::empty(),
    };
    let committing = match commit {
        Some(text) => seq![StepView::Commit(text)],
        None => Seq::empty(),
    };
    let composing = match preedit {
        Some(text) => StepView::Preedit(text),
        None => StepView::Preedit(Seq::empty()),
    };
    deleting + committing + seq![composing]
}

/// The text of an optional string.
pub open spec fn text_of(text: Option<String>) -> Option<Seq<char>> {
    match text {
        Some(t) => Some(t@),
        None => None,
    }
}

impl Pending {
    /// What the engine said, as the steps to apply now it is done.
    pub fn steps(self) -> (steps: Vec<ImeStep>)
        ensures
            steps@.map_values(|s: ImeStep| s@)
                == steps_of(self.delete, text_of(self.commit), text_of(self.preedit)),
    {
        let ghost wanted = steps_of(self.delete, text_of(self.commit), text_of(self.preedit));
        let mut steps: Vec<ImeStep> = Vec::new();
        if let Some((before, after)) = self.delete {
            steps.push(ImeStep::DeleteSurrounding { before, after });
        }
        if let Some(text) = self.commit {
            steps.push(ImeStep::Commit(text));
        }
        let composing = match self.preedit {
            Some(text) => text,
            None => String::new(),
        };
        steps.push(ImeStep::Preedit(composing));
        assert(steps@.map_values(|s: ImeStep| s@) =~= wanted);
        steps
    }
}

} // verus!
