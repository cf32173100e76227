//! A document with its history.
//!
//! This is what an editor holds. Every edit goes through here, so history
//! cannot drift out of step with the document. No-op edits are refused before
//! they reach history: erasing nothing or clearing an empty document leaves
//! the undo stack alone, so undo never has to be pressed twice to skip over
//! something that did not happen.
use vstd::prelude::*;
use crate::command::{apply_error, apply_result, apply_succeeds, inverse_of, is_noop_for, Command, CommandView};
use crate::document::Document;
use crate::error::DocumentError;
use crate::history::History;
use crate::id::{ObjectId, OutputId};
use crate::limits::MAX_UNDO_TRANSACTIONS;
use crate::object::Object;

verus! {

/// The undo stack after recording `inverse` on top of `stack`, at the limit
/// dropping the oldest entry.
pub open spec fn recorded<S, G>(stack: Seq<CommandView<S, G>>, inverse: CommandView<S, G>) -> Seq<CommandView<S, G>> {
    if stack.len() < MAX_UNDO_TRANSACTIONS {
        stack.push(inverse)
    } else {
        stack.push(inverse).drop_first()
    }
}

#[derive(Debug)]
pub struct Session<S, G, Z> {
    document: Document<S, G, Z>,
    history: History<S, G>,
}

impl<S, G, Z> Session<S, G, Z> {
    pub closed spec fn doc(&self) -> Document<S, G, Z> {
        self.document
    }

    pub closed spec fn hist(&self) -> History<S, G> {
        self.history
    }

    pub open spec fn wf(&self) -> bool {
        &&& self.doc().wf()
        &&& self.hist().wf()
    }

    /// Whether an edit was applied as `edit` to `old`, leaving `self`: the
    /// document changed as the command describes, and on success its inverse
    /// was recorded and the redo branch is gone.
    pub open spec fn edited(&self, old: &Self, edit: CommandView<S, G>, succeeded: bool) -> bool {
        let before = old.doc().contents();
        let output = old.doc().output_of();
        &&& self.doc().same_binding(&old.doc())
        &&& self.doc().contents() == apply_result(edit, before, output)
        &&& succeeded == apply_succeeds(edit, before, output)
        &&& succeeded ==> {
            &&& self.hist().undo_stack() == recorded(old.hist().undo_stack(), inverse_of(edit, before))
            &&& self.hist().redo_stack() == Seq::<CommandView<S, G>>::empty()
        }
        &&& !succeeded ==> self.hist() == old.hist()
    }

    /// Whether undo, applied to `old`, left `self`: the most recent inverse
    /// was applied to the document, and on success its own inverse became the
    /// most recent redo.
    pub open spec fn undone(&self, old: &Self, succeeded: bool) -> bool {
        let command = old.hist().undo_stack().last();
        let before = old.doc().contents();
        let output = old.doc().output_of();
        &&& self.doc().same_binding(&old.doc())
        &&& self.hist().undo_stack() == old.hist().undo_stack().drop_last()
        &&& self.doc().contents() == apply_result(command, before, output)
        &&& succeeded == apply_succeeds(command, before, output)
        &&& succeeded ==> self.hist().redo_stack() == old.hist().redo_stack().push(inverse_of(command, before))
        &&& !succeeded ==> self.hist().redo_stack() == old.hist().redo_stack()
    }

    /// Whether redo, applied to `old`, left `self`.
    pub open spec fn redone(&self, old: &Self, succeeded: bool) -> bool {
        let command = old.hist().redo_stack().last();
        let before = old.doc().contents();
        let output = old.doc().output_of();
        &&& self.doc().same_binding(&old.doc())
        &&& self.hist().redo_stack() == old.hist().redo_stack().drop_last()
        &&& self.doc().contents() == apply_result(command, before, output)
        &&& succeeded == apply_succeeds(command, before, output)
        &&& succeeded ==> self.hist().undo_stack() == old.hist().undo_stack().push(inverse_of(command, before))
        &&& !succeeded ==> self.hist().undo_stack() == old.hist().undo_stack()
    }

    pub fn new(output: OutputId, output_size: Z) -> (session: Self)
        ensures
            session.wf(),
            session.doc().contents() == Seq::<Object<S, G>>::empty(),
            session.doc().output_of() == output.name(),
            session.doc().size_of() == output_size,
            session.hist().undo_stack() == Seq::<CommandView<S, G>>::empty(),
            session.hist().redo_stack() == Seq::<CommandView<S, G>>::empty(),
    {
        Session { document: Document::new(output, output_size), history: History::new() }
    }

    pub fn document(&self) -> (document: &Document<S, G, Z>)
        ensures
            *document == self.doc(),
    {
        &self.document
    }

    pub fn history(&self) -> (history: &History<S, G>)
        ensures
            *history == self.hist(),
    {
        &self.history
    }

    /// Adds an object as one undoable edit.
    pub fn add(&mut self, object: Object<S, G>) -> (result: Result<ObjectId, DocumentError>)
        requires
            old(self).wf(),
        ensures
            final(self).wf(),
            final(self).edited(old(self), CommandView::Add(object), result is Ok),
            result matches Ok(id) ==> id == object.id_of(),
            result matches Err(e) ==> apply_error(CommandView::Add(object), old(self).doc().contents(), old(self).doc().output_of(), e),
    {
        let id = object.id();
        let inverse = Command::Add { object }.apply(&mut self.document)?;
        self.history.record(inverse);
        Ok(id)
    }

    /// Removes the named objects as **one** undoable edit, however many there
    /// are: undoing it brings all of them back, in order.
    ///
    /// Returns how many ids the edit carried. Zero means none of them was
    /// present, and nothing was recorded or changed.
    pub fn delete(&mut self, ids: &[ObjectId]) -> (result: Result<usize, DocumentError>)
        requires
            old(self).wf(),
        ensures
            final(self).wf(),
            is_noop_for(CommandView::<S, G>::Remove(ids@), old(self).doc().contents()) ==> {
                &&& result == Ok::<usize, DocumentError>(0)
                &&& *final(self) == *old(self)
            },
            !is_noop_for(CommandView::<S, G>::Remove(ids@), old(self).doc().contents()) ==> {
                &&& result == Ok::<usize, DocumentError>(ids@.len() as usize)
                &&& final(self).edited(old(self), CommandView::Remove(ids@), true)
            },
    {
        let owned = copy_ids(ids);
        self.run(Command::Remove { ids: owned })
    }

    /// Removes every object as one undoable edit. Clearing an empty document
    /// changes nothing and records nothing.
    pub fn clear(&mut self) -> (result: Result<usize, DocumentError>)
        requires
            old(self).wf(),
        ensures
            final(self).wf(),
            old(self).doc().contents().len() == 0 ==> {
                &&& result == Ok::<usize, DocumentError>(0)
                &&& *final(self) == *old(self)
            },
            old(self).doc().contents().len() > 0 ==> {
                &&& result == Ok::<usize, DocumentError>(old(self).doc().contents().len() as usize)
                &&& final(self).doc().contents() == Seq::<Object<S, G>>::empty()
                &&& final(self).edited(old(self), CommandView::Remove(old(self).doc().contents().map_values(|o: Object<S, G>| o.id_of())), true)
            },
    {
        let ids = all_ids(self.document.objects());
        let ghost all = self.document.contents();
        let ghost named = ids@;
        proof {
            assert forall|i: int| 0 <= i < all.len() implies named.contains(#[trigger] all[i].id_of()) by {
                assert(named[i] == all[i].id_of());
            }
            lemma_kept_all(all, named);
        }
        self.run(Command::Remove { ids })
    }

    /// Applies a command unless it would change nothing.
    fn run(&mut self, command: Command<S, G>) -> (result: Result<usize, DocumentError>)
        requires
            old(self).wf(),
            command@ is Remove,
        ensures
            final(self).wf(),
            is_noop_for(command@, old(self).doc().contents()) ==> {
                &&& result == Ok::<usize, DocumentError>(0)
                &&& *final(self) == *old(self)
            },
            !is_noop_for(command@, old(self).doc().contents()) ==> {
                &&& result == Ok::<usize, DocumentError>(crate::command::weight_of(command@) as usize)
                &&& final(self).edited(old(self), command@, true)
            },
    {
        if command.is_noop(&self.document) {
            return Ok(0);
        }
        let weight = command.weight();
        let inverse = command.apply(&mut self.document)?;
        self.history.record(inverse);
        Ok(weight)
    }

    /// Undoes the most recent edit. `Ok(false)` means there was nothing to
    /// undo.
    pub fn undo(&mut self) -> (result: Result<bool, DocumentError>)
        requires
            old(self).wf(),
        ensures
            final(self).wf(),
            old(self).hist().undo_stack().len() == 0 ==> {
                &&& result == Ok::<bool, DocumentError>(false)
                &&& *final(self) == *old(self)
            },
            old(self).hist().undo_stack().len() > 0 ==> {
                &&& final(self).undone(old(self), result is Ok)
                &&& result is Ok ==> result == Ok::<bool, DocumentError>(true)
                &&& result matches Err(e) ==> apply_error(
                    old(self).hist().undo_stack().last(),
                    old(self).doc().contents(),
                    old(self).doc().output_of(),
                    e,
                )
            },
    {
        self.history.undo(&mut self.document)
    }

    /// Redoes the most recently undone edit. `Ok(false)` means there was
    /// nothing to redo.
    pub fn redo(&mut self) -> (result: Result<bool, DocumentError>)
        requires
            old(self).wf(),
        ensures
            final(self).wf(),
            old(self).hist().redo_stack().len() == 0 ==> {
                &&& result == Ok::<bool, DocumentError>(false)
                &&& *final(self) == *old(self)
            },
            old(self).hist().redo_stack().len() > 0 ==> {
                &&& final(self).redone(old(self), result is Ok)
                &&& result is Ok ==> result == Ok::<bool, DocumentError>(true)
                &&& result matches Err(e) ==> apply_error(
                    old(self).hist().redo_stack().last(),
                    old(self).doc().contents(),
                    old(self).doc().output_of(),
                    e,
                )
            },
    {
        self.history.redo(&mut self.document)
    }

    pub fn can_undo(&self) -> (can: bool)
        ensures
            can == (self.hist().undo_stack().len() > 0),
    {
        self.history.can_undo()
    }

    pub fn can_redo(&self) -> (can: bool)
        ensures
            can == (self.hist().redo_stack().len() > 0),
    {
        self.history.can_redo()
    }

    /// Rebinds to a different output, discarding history.
    ///
    /// Only while empty: history refers to objects on the old output, so
    /// keeping it across a rebind would let undo reinsert an object the
    /// document would then refuse.
    pub fn rebind(&mut self, output: OutputId) -> (rebound: bool)
        requires
            old(self).wf(),
        ensures
            final(self).wf(),
            rebound == (old(self).doc().contents().len() == 0),
            !rebound ==> *final(self) == *old(self),
            rebound ==> {
                &&& final(self).doc().contents().len() == 0
                &&& final(self).doc().output_of() == output.name()
                &&& final(self).doc().size_of() == old(self).doc().size_of()
                &&& final(self).hist().undo_stack() == Seq::<CommandView<S, G>>::empty()
                &&& final(self).hist().redo_stack() == Seq::<CommandView<S, G>>::empty()
            },
    {
        if !self.document.is_empty() {
            return false;
        }
        self.document.rebind_empty(output);
        self.history = History::new();
        true
    }
}

/// The ids of objects, in order.
fn all_ids<S, G>(objects: &[Object<S, G>]) -> (ids: Vec<ObjectId>)
    ensures
        ids@ == objects@.map_values(|o: Object<S, G>| o.id_of()),
{
    let mut ids: Vec<ObjectId> = Vec::new();
    let mut i: usize = 0;
    while i < objects.len()
        invariant
            i <= objects@.len(),
            ids@ == objects@.take(i as int).map_values(|o: Object<S, G>| o.id_of()),
        decreases objects@.len() - i,
    {
        assert(objects@.take(i + 1).map_values(|o: Object<S, G>| o.id_of()) =~= objects@.take(i as int).map_values(|o: Object<S, G>| o.id_of()).push(objects@[i as int].id_of()));
        ids.push(objects[i].id());
        i = i + 1;
    }
    assert(objects@.take(objects@.len() as int) == objects@);
    ids
}

/// An owned copy of a list of ids.
fn copy_ids(ids: &[ObjectId]) -> (copy: Vec<ObjectId>)
    ensures
        copy@ == ids@,
{
    let mut copy: Vec<ObjectId> = Vec::new();
    let mut i: usize = 0;
    while i < ids.len()
        invariant
            i <= ids@.len(),
            copy@ == ids@.take(i as int),
        decreases ids@.len() - i,
    {
        assert(ids@.take(i + 1) == ids@.take(i as int).push(ids@[i as int]));
        copy.push(ids[i]);
        i = i + 1;
    }
    assert(ids@.take(ids@.len() as int) == ids@);
    copy
}

/// Naming every object removes every object.
proof fn lemma_kept_all<S, G>(objs: Seq<Object<S, G>>, ids: Seq<ObjectId>)
    requires
        forall|i: int| 0 <= i < objs.len() ==> ids.contains(#[trigger] objs[i].id_of()),
    ensures
        crate::document::kept(objs, ids) == Seq::<Object<S, G>>::empty(),
    decreases objs.len(),
{
    if objs.len() > 0 {
        let rest = objs.drop_last();
        assert forall|i: int| 0 <= i < rest.len() implies ids.contains(#[trigger] rest[i].id_of()) by {
            assert(rest[i] == objs[i]);
        }
        lemma_kept_all(rest, ids);
        assert(ids.contains(objs[objs.len() - 1].id_of()));
    }
}

/// The most recent entry of a history is the inverse just recorded, whether
/// or not the limit dropped the oldest.
proof fn lemma_recorded_last<S, G>(stack: Seq<CommandView<S, G>>, inverse: CommandView<S, G>)
    ensures
        recorded(stack, inverse).len() > 0,
        recorded(stack, inverse).last() == inverse,
        recorded(stack, inverse).drop_last() == if stack.len() < MAX_UNDO_TRANSACTIONS {
            stack
        } else {
            stack.drop_first()
        },
{
    if stack.len() >= MAX_UNDO_TRANSACTIONS {
        assert(stack.push(inverse).drop_first().drop_last() =~= stack.drop_first());
    } else {
        assert(stack.push(inverse).drop_last() =~= stack);
    }
}

/// Removing objects, then undoing, restores the document exactly: every
/// removed object is back at the position it held, and the undo succeeds.
/// An eraser sweep or a clear is one such removal, however many objects it
/// took.
pub proof fn law_undo_restores_removed<S, G, Z>(
    s0: Session<S, G, Z>,
    s1: Session<S, G, Z>,
    s2: Session<S, G, Z>,
    ids: Seq<ObjectId>,
    undone_ok: bool,
)
    requires
        s0.wf(),
        s1.edited(&s0, CommandView::Remove(ids), true),
        s2.undone(&s1, undone_ok),
    ensures
        undone_ok,
        s2.doc().contents() == s0.doc().contents(),
        s2.hist().undo_stack() == s1.hist().undo_stack().drop_last(),
{
    lemma_recorded_last(s0.hist().undo_stack(), inverse_of(CommandView::Remove(ids), s0.doc().contents()));
    crate::command::law_removal_is_undone_exactly(s0.doc().contents(), s0.doc().output_of(), ids);
}

/// Adding an object with an id new to the document, then undoing, restores
/// the document exactly.
pub proof fn law_undo_removes_added<S, G, Z>(
    s0: Session<S, G, Z>,
    s1: Session<S, G, Z>,
    s2: Session<S, G, Z>,
    object: Object<S, G>,
    undone_ok: bool,
)
    requires
        s0.wf(),
        crate::command::none_named(s0.doc().contents(), seq![object.id_of()]),
        s1.edited(&s0, CommandView::Add(object), true),
        s2.undone(&s1, undone_ok),
    ensures
        undone_ok,
        s2.doc().contents() == s0.doc().contents(),
{
    lemma_recorded_last(s0.hist().undo_stack(), inverse_of(CommandView::Add(object), s0.doc().contents()));
    crate::command::law_addition_is_undone_exactly(s0.doc().contents(), s0.doc().output_of(), object);
}

/// Removing, undoing, then redoing leaves the document as the removal left
/// it, and the redone edit can be undone again.
pub proof fn law_redo_repeats_removal<S, G, Z>(
    s0: Session<S, G, Z>,
    s1: Session<S, G, Z>,
    s2: Session<S, G, Z>,
    s3: Session<S, G, Z>,
    ids: Seq<ObjectId>,
    undone_ok: bool,
    redone_ok: bool,
)
    requires
        s0.wf(),
        s1.edited(&s0, CommandView::Remove(ids), true),
        s2.undone(&s1, undone_ok),
        s3.redone(&s2, redone_ok),
    ensures
        redone_ok,
        s3.doc().contents() == s1.doc().contents(),
        s3.hist().undo_stack() == s1.hist().undo_stack(),
        s3.hist().redo_stack() == s1.hist().redo_stack(),
{
    let before = s0.doc().contents();
    let output = s0.doc().output_of();
    let edit = CommandView::<S, G>::Remove(ids);
    lemma_recorded_last(s0.hist().undo_stack(), inverse_of(edit, before));
    crate::command::law_removal_is_undone_exactly(before, output, ids);
    crate::command::law_redo_repeats_removal(before, output, ids);
    assert(s2.hist().redo_stack().last() == inverse_of(inverse_of(edit, before), s1.doc().contents()));
    assert(s2.hist().redo_stack().drop_last() =~= s1.hist().redo_stack());
    assert(s1.hist().undo_stack().drop_last().push(inverse_of(edit, before)) =~= s1.hist().undo_stack());
}

/// Adding a new object, undoing, then redoing leaves the document as the
/// addition left it.
pub proof fn law_redo_repeats_addition<S, G, Z>(
    s0: Session<S, G, Z>,
    s1: Session<S, G, Z>,
    s2: Session<S, G, Z>,
    s3: Session<S, G, Z>,
    object: Object<S, G>,
    undone_ok: bool,
    redone_ok: bool,
)
    requires
        s0.wf(),
        crate::command::none_named(s0.doc().contents(), seq![object.id_of()]),
        s1.edited(&s0, CommandView::Add(object), true),
        s2.undone(&s1, undone_ok),
        s3.redone(&s2, redone_ok),
    ensures
        redone_ok,
        s3.doc().contents() == s1.doc().contents(),
{
    let before = s0.doc().contents();
    let output = s0.doc().output_of();
    let edit = CommandView::<S, G>::Add(object);
    lemma_recorded_last(s0.hist().undo_stack(), inverse_of(edit, before));
    crate::command::law_addition_is_undone_exactly(before, output, object);
    crate::command::law_redo_repeats_addition(before, output, object);
}

} // verus!
