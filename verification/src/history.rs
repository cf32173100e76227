//! Undo and redo.
//!
//! Undo and redo act on completed user actions, never on pointer samples: an
//! eraser sweep that removes nine objects is one entry, because the user made
//! one gesture.
use vstd::prelude::*;
use crate::command::{apply_error, apply_result, apply_succeeds, inverse_of, Command, CommandView};
use crate::document::Document;
use crate::error::DocumentError;
use crate::limits::MAX_UNDO_TRANSACTIONS;

verus! {

/// The views of a stack of commands.
pub open spec fn views_of<S, G>(commands: Seq<Command<S, G>>) -> Seq<CommandView<S, G>> {
    commands.map_values(|command: Command<S, G>| command@)
}

/// The stacks of inverse commands.
#[derive(Debug)]
pub struct History<S, G> {
    /// Commands that would undo each past edit, most recent last.
    undo: Vec<Command<S, G>>,
    /// Commands that would redo each undone edit, most recent last.
    redo: Vec<Command<S, G>>,
    /// True once the limit has forced an old entry out.
    truncated: bool,
}

impl<S, G> History<S, G> {
    /// What undo would apply, most recent last.
    pub closed spec fn undo_stack(&self) -> Seq<CommandView<S, G>> {
        views_of(self.undo@)
    }

    /// What redo would apply, most recent last.
    pub closed spec fn redo_stack(&self) -> Seq<CommandView<S, G>> {
        views_of(self.redo@)
    }

    pub closed spec fn truncated_flag(&self) -> bool {
        self.truncated
    }

    /// What every history keeps: undo and redo together reach no further
    /// than the limit.
    pub open spec fn wf(&self) -> bool {
        self.undo_stack().len() + self.redo_stack().len() <= MAX_UNDO_TRANSACTIONS
    }

    pub fn new() -> (history: Self)
        ensures
            history.wf(),
            history.undo_stack() == Seq::<CommandView<S, G>>::empty(),
            history.redo_stack() == Seq::<CommandView<S, G>>::empty(),
            !history.truncated_flag(),
    {
        let history = History { undo: Vec::new(), redo: Vec::new(), truncated: false };
        assert(history.undo_stack() =~= Seq::<CommandView<S, G>>::empty());
        assert(history.redo_stack() =~= Seq::<CommandView<S, G>>::empty());
        history
    }

    /// Records the inverse of an edit that has just been applied.
    ///
    /// Clears the redo stack: once a new edit is committed, the branch the
    /// user walked away from is gone. At the limit the oldest entry is dropped
    /// and the history remembers that it was.
    pub fn record(&mut self, inverse: Command<S, G>)
        requires
            old(self).wf(),
        ensures
            final(self).wf(),
            final(self).redo_stack() == Seq::<CommandView<S, G>>::empty(),
            old(self).undo_stack().len() < MAX_UNDO_TRANSACTIONS ==> {
                &&& final(self).undo_stack() == old(self).undo_stack().push(inverse@)
                &&& final(self).truncated_flag() == old(self).truncated_flag()
            },
            old(self).undo_stack().len() >= MAX_UNDO_TRANSACTIONS ==> {
                &&& final(self).undo_stack() == old(self).undo_stack().push(inverse@).drop_first()
                &&& final(self).truncated_flag()
            },
    {
        self.redo.clear();
        let ghost before = self.undo@;
        self.undo.push(inverse);
        assert(views_of(self.undo@) =~= views_of(before).push(inverse@));
        if self.undo.len() > MAX_UNDO_TRANSACTIONS {
            let ghost pushed = self.undo@;
            self.undo.remove(0);
            assert(views_of(self.undo@) =~= views_of(pushed).drop_first());
            self.truncated = true;
        }
        assert(self.redo_stack() =~= Seq::<CommandView<S, G>>::empty());
    }

    /// Undoes the most recent edit. `Ok(false)` means there was nothing to
    /// undo. A command that the document refuses is reported and is gone from
    /// the history.
    pub fn undo<Z>(&mut self, document: &mut Document<S, G, Z>) -> (result: Result<bool, DocumentError>)
        requires
            old(self).wf(),
            old(document).wf(),
        ensures
            final(self).wf(),
            final(document).wf(),
            final(document).same_binding(old(document)),
            final(self).truncated_flag() == old(self).truncated_flag(),
            old(self).undo_stack().len() == 0 ==> {
                &&& result == Ok::<bool, DocumentError>(false)
                &&& *final(self) == *old(self)
                &&& *final(document) == *old(document)
            },
            old(self).undo_stack().len() > 0 ==> {
                let command = old(self).undo_stack().last();
                let before = old(document).contents();
                let output = old(document).output_of();
                &&& final(self).undo_stack() == old(self).undo_stack().drop_last()
                &&& final(document).contents() == apply_result(command, before, output)
                &&& final(document).revision_of() != old(document).revision_of()
                &&& apply_succeeds(command, before, output) ==> {
                    &&& result == Ok::<bool, DocumentError>(true)
                    &&& final(self).redo_stack() == old(self).redo_stack().push(inverse_of(command, before))
                }
                &&& !apply_succeeds(command, before, output) ==> {
                    &&& result matches Err(e)
                    &&& apply_error(command, before, output, e)
                    &&& final(self).redo_stack() == old(self).redo_stack()
                }
            },
    {
        if self.undo.len() == 0 {
            return Ok(false);
        }
        let ghost stack = self.undo@;
        match self.undo.pop() {
            None => Ok(false),
            Some(command) => {
                assert(views_of(self.undo@) =~= views_of(stack).drop_last());
                let inverse = command.apply(document)?;
                let ghost before = self.redo@;
                self.redo.push(inverse);
                assert(views_of(self.redo@) =~= views_of(before).push(inverse@));
                Ok(true)
            },
        }
    }

    /// Redoes the most recently undone edit. `Ok(false)` means there was
    /// nothing to redo.
    pub fn redo<Z>(&mut self, document: &mut Document<S, G, Z>) -> (result: Result<bool, DocumentError>)
        requires
            old(self).wf(),
            old(document).wf(),
        ensures
            final(document).wf(),
            final(document).same_binding(old(document)),
            final(self).wf(),
            final(self).truncated_flag() == old(self).truncated_flag(),
            old(self).redo_stack().len() == 0 ==> {
                &&& result == Ok::<bool, DocumentError>(false)
                &&& *final(self) == *old(self)
                &&& *final(document) == *old(document)
            },
            old(self).redo_stack().len() > 0 ==> {
                let command = old(self).redo_stack().last();
                let before = old(document).contents();
                let output = old(document).output_of();
                &&& final(self).redo_stack() == old(self).redo_stack().drop_last()
                &&& final(document).contents() == apply_result(command, before, output)
                &&& final(document).revision_of() != old(document).revision_of()
                &&& apply_succeeds(command, before, output) ==> {
                    &&& result == Ok::<bool, DocumentError>(true)
                    &&& final(self).undo_stack() == old(self).undo_stack().push(inverse_of(command, before))
                }
                &&& !apply_succeeds(command, before, output) ==> {
                    &&& result matches Err(e)
                    &&& apply_error(command, before, output, e)
                    &&& final(self).undo_stack() == old(self).undo_stack()
                }
            },
    {
        if self.redo.len() == 0 {
            return Ok(false);
        }
        let ghost stack = self.redo@;
        match self.redo.pop() {
            None => Ok(false),
            Some(command) => {
                assert(views_of(self.redo@) =~= views_of(stack).drop_last());
                let inverse = command.apply(document)?;
                let ghost before = self.undo@;
                self.undo.push(inverse);
                assert(views_of(self.undo@) =~= views_of(before).push(inverse@));
                Ok(true)
            },
        }
    }

    pub fn can_undo(&self) -> (can: bool)
        ensures
            can == (self.undo_stack().len() > 0),
    {
        self.undo.len() > 0
    }

    pub fn can_redo(&self) -> (can: bool)
        ensures
            can == (self.redo_stack().len() > 0),
    {
        self.redo.len() > 0
    }

    pub fn undo_depth(&self) -> (depth: usize)
        ensures
            depth == self.undo_stack().len(),
    {
        self.undo.len()
    }

    pub fn redo_depth(&self) -> (depth: usize)
        ensures
            depth == self.redo_stack().len(),
    {
        self.redo.len()
    }

    /// Whether the limit has discarded the oldest history.
    pub fn was_truncated(&self) -> (truncated: bool)
        ensures
            truncated == self.truncated_flag(),
    {
        self.truncated
    }
}

} // verus!
