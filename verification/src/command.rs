//! Document edits that can be undone.
//!
//! Three commands, each the inverse of another: `Add` inverts to `Remove`,
//! `Remove` inverts to `Insert`, and `Insert` inverts back to `Remove`.
//! Applying one returns the command that would undo it, so history never has
//! to reason about what an edit meant. Clear is `Remove` over everything.
//!
//! Inverses carry whole objects and their positions rather than a recipe for
//! rebuilding them: undo restores order and style exactly by keeping what was
//! there.
use vstd::prelude::*;
use crate::document::{contains_id, first_refused_insert, insert_step_ok, inserted, kept, taken, Document};
use crate::error::DocumentError;
use crate::id::ObjectId;
use crate::limits::MAX_OBJECTS_PER_OUTPUT;
use crate::object::Object;

verus! {

#[derive(Debug)]
pub enum Command<S, G> {
    /// Append one object.
    Add { object: Object<S, G> },
    /// Remove objects by id. Ids that are not present are ignored.
    Remove { ids: Vec<ObjectId> },
    /// Put objects back at the positions they came from, in ascending order.
    Insert { objects: Vec<(usize, Object<S, G>)> },
}

/// What a command is, with its lists as sequences.
pub enum CommandView<S, G> {
    Add(Object<S, G>),
    Remove(Seq<ObjectId>),
    Insert(Seq<(usize, Object<S, G>)>),
}

impl<S, G> View for Command<S, G> {
    type V = CommandView<S, G>;

    open spec fn view(&self) -> CommandView<S, G> {
        match self {
            Command::Add { object } => CommandView::Add(*object),
            Command::Remove { ids } => CommandView::Remove(ids@),
            Command::Insert { objects } => CommandView::Insert(objects@),
        }
    }
}

/// The ids of positioned objects, in order.
pub open spec fn ids_of<S, G>(items: Seq<(usize, Object<S, G>)>) -> Seq<ObjectId> {
    items.map_values(|item: (usize, Object<S, G>)| item.1.id_of())
}

/// Whether applying `command` to a document holding `before`, bound to
/// `output`, succeeds.
pub open spec fn apply_succeeds<S, G>(command: CommandView<S, G>, before: Seq<Object<S, G>>, output: Seq<char>) -> bool {
    match command {
        CommandView::Add(object) => object.output_of() == output && before.len() < MAX_OBJECTS_PER_OUTPUT,
        CommandView::Remove(_) => true,
        CommandView::Insert(items) => {
            &&& before.len() + items.len() <= MAX_OBJECTS_PER_OUTPUT
            &&& first_refused_insert(before, output, items) == items.len()
        },
    }
}

/// What the document holds after applying `command`, whether or not it
/// succeeded: a refused `Insert` keeps the objects inserted before the
/// refusal.
pub open spec fn apply_result<S, G>(command: CommandView<S, G>, before: Seq<Object<S, G>>, output: Seq<char>) -> Seq<Object<S, G>> {
    match command {
        CommandView::Add(object) => if apply_succeeds(command, before, output) {
            before.push(object)
        } else {
            before
        },
        CommandView::Remove(ids) => kept(before, ids),
        CommandView::Insert(items) => if before.len() + items.len() <= MAX_OBJECTS_PER_OUTPUT {
            inserted(before, items.take(first_refused_insert(before, output, items)))
        } else {
            before
        },
    }
}

/// The command that undoes `command` applied to `before`.
pub open spec fn inverse_of<S, G>(command: CommandView<S, G>, before: Seq<Object<S, G>>) -> CommandView<S, G> {
    match command {
        CommandView::Add(object) => CommandView::Remove(seq![object.id_of()]),
        CommandView::Remove(ids) => CommandView::Insert(taken(before, ids)),
        CommandView::Insert(items) => CommandView::Remove(ids_of(items)),
    }
}

/// The error a refused command reports.
pub open spec fn apply_error<S, G>(command: CommandView<S, G>, before: Seq<Object<S, G>>, output: Seq<char>, error: DocumentError) -> bool {
    match command {
        CommandView::Add(object) => if object.output_of() != output {
            error.is_output_mismatch(object.id_of(), output, object.output_of())
        } else {
            error == DocumentError::ObjectLimitReached { limit: MAX_OBJECTS_PER_OUTPUT }
        },
        CommandView::Remove(_) => false,
        CommandView::Insert(items) => if before.len() + items.len() > MAX_OBJECTS_PER_OUTPUT {
            error == DocumentError::ObjectLimitReached { limit: MAX_OBJECTS_PER_OUTPUT }
        } else {
            let k = first_refused_insert(before, output, items);
            let item = items[k];
            if item.1.output_of() != output {
                error.is_output_mismatch(item.1.id_of(), output, item.1.output_of())
            } else {
                error == DocumentError::InvalidPosition {
                    index: item.0,
                    length: inserted(before, items.take(k)).len() as usize,
                }
            }
        },
    }
}

/// Whether applying `command` would change nothing.
pub open spec fn is_noop_for<S, G>(command: CommandView<S, G>, objects: Seq<Object<S, G>>) -> bool {
    match command {
        CommandView::Add(_) => false,
        CommandView::Remove(ids) => forall|i: int| 0 <= i < objects.len() ==> !ids.contains(#[trigger] objects[i].id_of()),
        CommandView::Insert(items) => items.len() == 0,
    }
}

/// How many objects a command carries.
pub open spec fn weight_of<S, G>(command: CommandView<S, G>) -> nat {
    match command {
        CommandView::Add(_) => 1,
        CommandView::Remove(ids) => ids.len(),
        CommandView::Insert(items) => items.len(),
    }
}

impl<S, G> Command<S, G> {
    /// Applies the command and returns the command that would undo it.
    pub fn apply<Z>(self, document: &mut Document<S, G, Z>) -> (result: Result<Command<S, G>, DocumentError>)
        requires
            old(document).wf(),
        ensures
            final(document).wf(),
            final(document).same_binding(old(document)),
            final(document).revision_of() != old(document).revision_of(),
            final(document).contents() == apply_result(self@, old(document).contents(), old(document).output_of()),
            result is Ok <==> apply_succeeds(self@, old(document).contents(), old(document).output_of()),
            result matches Ok(inverse) ==> inverse@ == inverse_of(self@, old(document).contents()),
            result matches Err(e) ==> apply_error(self@, old(document).contents(), old(document).output_of(), e),
    {
        match self {
            Command::Add { object } => {
                let id = document.add(object)?;
                let mut ids: Vec<ObjectId> = Vec::new();
                ids.push(id);
                Ok(Command::Remove { ids })
            },
            Command::Remove { ids } => {
                let removed = document.remove_with_positions(ids.as_slice());
                Ok(Command::Insert { objects: removed })
            },
            Command::Insert { objects } => {
                let ids = ids_in(&objects);
                match document.insert_at(objects) {
                    Ok(()) => {
                        proof {
                            assert(objects@.take(objects@.len() as int) == objects@);
                        }
                        Ok(Command::Remove { ids })
                    },
                    Err(e) => Err(e),
                }
            },
        }
    }

    /// Whether applying this would change nothing, so history should not
    /// record it.
    pub fn is_noop<Z>(&self, document: &Document<S, G, Z>) -> (noop: bool)
        ensures
            noop == is_noop_for(self@, document.contents()),
    {
        match self {
            Command::Add { .. } => false,
            Command::Remove { ids } => {
                let objects = document.objects();
                let mut i: usize = 0;
                while i < objects.len()
                    invariant
                        objects@ == document.contents(),
                        self@ == CommandView::<S, G>::Remove(ids@),
                        i <= objects@.len(),
                        forall|j: int| 0 <= j < i ==> !ids@.contains(#[trigger] objects@[j].id_of()),
                    decreases objects@.len() - i,
                {
                    if contains_id(ids.as_slice(), objects[i].id()) {
                        assert(ids@.contains(document.contents()[i as int].id_of()));
                        return false;
                    }
                    i = i + 1;
                }
                true
            },
            Command::Insert { objects } => objects.len() == 0,
        }
    }

    /// How many objects this command carries, for history budgeting.
    pub fn weight(&self) -> (weight: usize)
        ensures
            weight == weight_of(self@),
    {
        match self {
            Command::Add { .. } => 1,
            Command::Remove { ids } => ids.len(),
            Command::Insert { objects } => objects.len(),
        }
    }
}

/// The ids of positioned objects.
fn ids_in<S, G>(items: &Vec<(usize, Object<S, G>)>) -> (ids: Vec<ObjectId>)
    ensures
        ids@ == ids_of(items@),
{
    let mut ids: Vec<ObjectId> = Vec::new();
    let mut i: usize = 0;
    while i < items.len()
        invariant
            i <= items@.len(),
            ids@ == ids_of(items@.take(i as int)),
        decreases items@.len() - i,
    {
        assert(ids_of(items@.take(i + 1)) == ids_of(items@.take(i as int)).push(items@[i as int].1.id_of()));
        ids.push(items[i].1.id());
        i = i + 1;
    }
    assert(items@.take(items@.len() as int) == items@);
    ids
}

/// Whether every object in `objects` belongs to `output`.
pub open spec fn all_belong<S, G>(objects: Seq<Object<S, G>>, output: Seq<char>) -> bool {
    forall|i: int| 0 <= i < objects.len() ==> #[trigger] objects[i].output_of() == output
}

/// Whether no object in `objects` carries an id in `ids`.
pub open spec fn none_named<S, G>(objects: Seq<Object<S, G>>, ids: Seq<ObjectId>) -> bool {
    forall|i: int| 0 <= i < objects.len() ==> !ids.contains(#[trigger] objects[i].id_of())
}

/// Undoing a removal restores the document exactly: the objects come back,
/// each at the position it held, and the reinsertion cannot be refused.
pub proof fn law_removal_is_undone_exactly<S, G>(before: Seq<Object<S, G>>, output: Seq<char>, ids: Seq<ObjectId>)
    requires
        all_belong(before, output),
        before.len() <= MAX_OBJECTS_PER_OUTPUT,
    ensures
        ({
            let edit = CommandView::<S, G>::Remove(ids);
            let after = apply_result(edit, before, output);
            let undo = inverse_of(edit, before);
            &&& apply_succeeds(edit, before, output)
            &&& apply_succeeds(undo, after, output)
            &&& apply_result(undo, after, output) == before
        }),
{
    lemma_reinsert_restores(before, output, ids);
    let t = taken(before, ids);
    assert(t.take(t.len() as int) == t);
}

/// Undoing the addition of an object whose id is new to the document
/// restores the document exactly.
pub proof fn law_addition_is_undone_exactly<S, G>(before: Seq<Object<S, G>>, output: Seq<char>, object: Object<S, G>)
    requires
        all_belong(before, output),
        before.len() < MAX_OBJECTS_PER_OUTPUT,
        object.output_of() == output,
        none_named(before, seq![object.id_of()]),
    ensures
        ({
            let edit = CommandView::<S, G>::Add(object);
            let after = apply_result(edit, before, output);
            let undo = inverse_of(edit, before);
            &&& apply_succeeds(edit, before, output)
            &&& apply_succeeds(undo, after, output)
            &&& apply_result(undo, after, output) == before
        }),
{
    let ids = seq![object.id_of()];
    let after = before.push(object);
    assert(after.drop_last() == before);
    assert(ids[0] == object.id_of());
    assert(ids.contains(object.id_of()));
    lemma_kept_none_named(before, ids);
}

/// Undoing an insertion of objects whose ids are new to the document
/// restores the document exactly.
pub proof fn law_insertion_is_undone_exactly<S, G>(before: Seq<Object<S, G>>, output: Seq<char>, items: Seq<(usize, Object<S, G>)>)
    requires
        apply_succeeds(CommandView::<S, G>::Insert(items), before, output),
        none_named(before, ids_of(items)),
    ensures
        ({
            let edit = CommandView::<S, G>::Insert(items);
            let after = apply_result(edit, before, output);
            let undo = inverse_of(edit, before);
            &&& apply_succeeds(undo, after, output)
            &&& apply_result(undo, after, output) == before
        }),
{
    assert(items.take(items.len() as int) == items);
    assert forall|k: int| 0 <= k < items.len() implies ids_of(items).contains(#[trigger] items[k].1.id_of()) by {
        assert(ids_of(items)[k] == items[k].1.id_of());
    }
    lemma_kept_after_inserting_named(before, output, items, ids_of(items));
}

/// Redoing an undone removal removes the same objects again, leaving the
/// document as the removal first left it and handing back the same inverse.
pub proof fn law_redo_repeats_removal<S, G>(before: Seq<Object<S, G>>, output: Seq<char>, ids: Seq<ObjectId>)
    requires
        all_belong(before, output),
        before.len() <= MAX_OBJECTS_PER_OUTPUT,
    ensures
        ({
            let edit = CommandView::<S, G>::Remove(ids);
            let after = apply_result(edit, before, output);
            let undo = inverse_of(edit, before);
            let redo = inverse_of(undo, after);
            &&& apply_result(redo, before, output) == after
            &&& inverse_of(redo, before) == undo
        }),
{
    let t = taken(before, ids);
    let named = ids_of(t);
    lemma_taken_names(before, ids);
    lemma_same_membership(before, ids, named);
}

/// Redoing an undone addition of a new object adds it again, at the end.
pub proof fn law_redo_repeats_addition<S, G>(before: Seq<Object<S, G>>, output: Seq<char>, object: Object<S, G>)
    requires
        all_belong(before, output),
        before.len() < MAX_OBJECTS_PER_OUTPUT,
        object.output_of() == output,
        none_named(before, seq![object.id_of()]),
    ensures
        ({
            let edit = CommandView::<S, G>::Add(object);
            let after = apply_result(edit, before, output);
            let undo = inverse_of(edit, before);
            let redo = inverse_of(undo, after);
            &&& apply_succeeds(redo, before, output)
            &&& apply_result(redo, before, output) == after
        }),
{
    let ids = seq![object.id_of()];
    let after = before.push(object);
    assert(after.drop_last() == before);
    assert(ids[0] == object.id_of());
    assert(ids.contains(object.id_of()));
    lemma_taken_none_named(before, ids);
    let t = taken(after, ids);
    assert(t == seq![(before.len() as usize, object)]);
    assert(t.drop_last() == Seq::<(usize, Object<S, G>)>::empty());
    assert(t.take(1) == t);
    assert(inserted(before, t.drop_last()) == before);
    assert(t.last() == (before.len() as usize, object));
    assert(before.insert(before.len() as int, object) =~= after);
    assert(insert_step_ok(before, output, t.last()));
    assert(first_refused_insert(before, output, t.drop_last()) == 0);
    assert(first_refused_insert(before, output, t) == 1);
    assert(inserted(before, t) == after);
}

proof fn lemma_first_refused_insert_bounded<S, G>(objs: Seq<Object<S, G>>, output: Seq<char>, items: Seq<(usize, Object<S, G>)>)
    ensures
        0 <= first_refused_insert(objs, output, items) <= items.len(),
    decreases items.len(),
{
    if items.len() > 0 {
        lemma_first_refused_insert_bounded(objs, output, items.drop_last());
    }
}

/// A run of insertions that is never refused adds one object per item.
proof fn lemma_inserted_len<S, G>(objs: Seq<Object<S, G>>, output: Seq<char>, items: Seq<(usize, Object<S, G>)>)
    requires
        first_refused_insert(objs, output, items) == items.len(),
    ensures
        inserted(objs, items).len() == objs.len() + items.len(),
        items.len() > 0 ==> first_refused_insert(objs, output, items.drop_last()) == items.len() - 1,
    decreases items.len(),
{
    if items.len() > 0 {
        let rest = items.drop_last();
        lemma_first_refused_insert_bounded(objs, output, rest);
        lemma_inserted_len(objs, output, rest);
    }
}

/// An object appended before a run of insertions stays last.
proof fn lemma_inserted_after_push<S, G>(objs: Seq<Object<S, G>>, output: Seq<char>, items: Seq<(usize, Object<S, G>)>, x: Object<S, G>)
    requires
        first_refused_insert(objs, output, items) == items.len(),
    ensures
        first_refused_insert(objs.push(x), output, items) == items.len(),
        inserted(objs.push(x), items) == inserted(objs, items).push(x),
    decreases items.len(),
{
    if items.len() > 0 {
        let rest = items.drop_last();
        lemma_inserted_len(objs, output, items);
        lemma_inserted_len(objs, output, rest);
        lemma_inserted_after_push(objs, output, rest, x);
        let base = inserted(objs, rest);
        let p = items.last().0 as int;
        assert(base.push(x).insert(p, items.last().1) =~= base.insert(p, items.last().1).push(x));
    }
}

/// What a removal takes, put back into what it keeps, is what was there.
proof fn lemma_reinsert_restores<S, G>(objs: Seq<Object<S, G>>, output: Seq<char>, ids: Seq<ObjectId>)
    requires
        all_belong(objs, output),
        objs.len() <= MAX_OBJECTS_PER_OUTPUT,
    ensures
        kept(objs, ids).len() + taken(objs, ids).len() == objs.len(),
        first_refused_insert(kept(objs, ids), output, taken(objs, ids)) == taken(objs, ids).len(),
        inserted(kept(objs, ids), taken(objs, ids)) == objs,
    decreases objs.len(),
{
    if objs.len() > 0 {
        let rest = objs.drop_last();
        let last = objs.last();
        assert forall|i: int| 0 <= i < rest.len() implies #[trigger] rest[i].output_of() == output by {
            assert(rest[i] == objs[i]);
        }
        lemma_reinsert_restores(rest, output, ids);
        let k = kept(rest, ids);
        let t = taken(rest, ids);
        if ids.contains(last.id_of()) {
            let item = ((objs.len() - 1) as usize, last);
            let t2 = t.push(item);
            assert(t2.drop_last() == t);
            assert(t2.last() == item);
            lemma_inserted_len(k, output, t);
            assert(rest.insert(objs.len() - 1, last) =~= objs);
        } else {
            lemma_inserted_after_push(k, output, t, last);
            assert(rest.push(last) =~= objs);
        }
    }
}

/// Removing ids that no object carries keeps everything.
proof fn lemma_kept_none_named<S, G>(objs: Seq<Object<S, G>>, ids: Seq<ObjectId>)
    requires
        none_named(objs, ids),
    ensures
        kept(objs, ids) == objs,
    decreases objs.len(),
{
    if objs.len() > 0 {
        let rest = objs.drop_last();
        assert forall|i: int| 0 <= i < rest.len() implies !ids.contains(#[trigger] rest[i].id_of()) by {
            assert(rest[i] == objs[i]);
        }
        lemma_kept_none_named(rest, ids);
        assert(!ids.contains(objs[objs.len() - 1].id_of()));
        assert(rest.push(objs.last()) =~= objs);
    }
}

/// Removing ids that no object carries takes nothing.
proof fn lemma_taken_none_named<S, G>(objs: Seq<Object<S, G>>, ids: Seq<ObjectId>)
    requires
        none_named(objs, ids),
    ensures
        taken(objs, ids) == Seq::<(usize, Object<S, G>)>::empty(),
    decreases objs.len(),
{
    if objs.len() > 0 {
        let rest = objs.drop_last();
        assert forall|i: int| 0 <= i < rest.len() implies !ids.contains(#[trigger] rest[i].id_of()) by {
            assert(rest[i] == objs[i]);
        }
        lemma_taken_none_named(rest, ids);
        assert(!ids.contains(objs[objs.len() - 1].id_of()));
    }
}

/// The test that an object is not named in `ids`.
pub open spec fn unnamed_by<S, G>(ids: Seq<ObjectId>) -> spec_fn(Object<S, G>) -> bool {
    |o: Object<S, G>| !ids.contains(o.id_of())
}

/// `kept` is the filter that drops named objects.
proof fn lemma_kept_is_filter<S, G>(objs: Seq<Object<S, G>>, ids: Seq<ObjectId>)
    ensures
        kept(objs, ids) == objs.filter(unnamed_by::<S, G>(ids)),
    decreases objs.len(),
{
    reveal(Seq::filter);
    if objs.len() > 0 {
        lemma_kept_is_filter(objs.drop_last(), ids);
    }
}

/// Inserting a named object anywhere does not change what a removal keeps.
proof fn lemma_kept_insert_named<S, G>(objs: Seq<Object<S, G>>, ids: Seq<ObjectId>, p: int, x: Object<S, G>)
    requires
        0 <= p <= objs.len(),
        ids.contains(x.id_of()),
    ensures
        kept(objs.insert(p, x), ids) == kept(objs, ids),
{
    let pred = unnamed_by::<S, G>(ids);
    reveal(Seq::filter);
    lemma_kept_is_filter(objs.insert(p, x), ids);
    lemma_kept_is_filter(objs, ids);
    let a = objs.take(p);
    let b = objs.skip(p);
    assert(objs.insert(p, x) =~= a + seq![x] + b);
    assert(objs =~= a + b);
    Seq::filter_distributes_over_add(a + seq![x], b, pred);
    Seq::filter_distributes_over_add(a, seq![x], pred);
    Seq::filter_distributes_over_add(a, b, pred);
    let single = seq![x];
    assert(single.drop_last() == Seq::<Object<S, G>>::empty());
    assert(single.last() == x);
    assert(!pred(x));
    assert(Seq::<Object<S, G>>::empty().filter(pred) == Seq::<Object<S, G>>::empty());
    assert(single.filter(pred) == Seq::<Object<S, G>>::empty());
    assert(a.filter(pred) + Seq::<Object<S, G>>::empty() =~= a.filter(pred));
}

/// Inserted objects that are all named, into objects none of which is, are
/// exactly what the removal of those names takes back out.
proof fn lemma_kept_after_inserting_named<S, G>(objs: Seq<Object<S, G>>, output: Seq<char>, items: Seq<(usize, Object<S, G>)>, ids: Seq<ObjectId>)
    requires
        first_refused_insert(objs, output, items) == items.len(),
        none_named(objs, ids),
        forall|k: int| 0 <= k < items.len() ==> ids.contains(#[trigger] items[k].1.id_of()),
    ensures
        kept(inserted(objs, items), ids) == objs,
    decreases items.len(),
{
    if items.len() == 0 {
        lemma_kept_none_named(objs, ids);
    } else {
        let rest = items.drop_last();
        lemma_inserted_len(objs, output, items);
        assert forall|k: int| 0 <= k < rest.len() implies ids.contains(#[trigger] rest[k].1.id_of()) by {
            assert(rest[k] == items[k]);
        }
        lemma_kept_after_inserting_named(objs, output, rest, ids);
        assert(ids.contains(items[items.len() - 1].1.id_of()));
        lemma_inserted_len(objs, output, rest);
        lemma_first_refused_insert_bounded(objs, output, rest);
        lemma_kept_insert_named(inserted(objs, rest), ids, items.last().0 as int, items.last().1);
    }
}

/// What a removal takes is exactly the objects it names: each taken object is
/// named, and each named object is taken.
proof fn lemma_taken_names<S, G>(objs: Seq<Object<S, G>>, ids: Seq<ObjectId>)
    ensures
        forall|i: int| 0 <= i < objs.len() ==> (ids.contains(#[trigger] objs[i].id_of()) <==> ids_of(taken(objs, ids)).contains(objs[i].id_of())),
    decreases objs.len(),
{
    if objs.len() > 0 {
        let rest = objs.drop_last();
        let last = objs.last();
        lemma_taken_names(rest, ids);
        lemma_taken_named_only(rest, ids);
        let t = taken(rest, ids);
        assert forall|i: int| 0 <= i < objs.len() implies (ids.contains(#[trigger] objs[i].id_of()) <==> ids_of(taken(objs, ids)).contains(objs[i].id_of())) by {
            let id = objs[i].id_of();
            if ids.contains(last.id_of()) {
                let t2 = t.push(((objs.len() - 1) as usize, last));
                assert(ids_of(t2) =~= ids_of(t).push(last.id_of()));
                if i < rest.len() {
                    assert(rest[i] == objs[i]);
                    if ids_of(t2).contains(id) {
                        let j = choose|j: int| 0 <= j < ids_of(t2).len() && ids_of(t2)[j] == id;
                        if j < ids_of(t).len() {
                            assert(ids_of(t).contains(id));
                        } else {
                            assert(id == last.id_of());
                        }
                    }
                    if ids.contains(id) {
                        assert(ids_of(t).contains(id));
                        let j = choose|j: int| 0 <= j < ids_of(t).len() && ids_of(t)[j] == id;
                        assert(ids_of(t2)[j] == id);
                    }
                } else {
                    assert(ids_of(t2)[ids_of(t2).len() - 1] == id);
                }
            } else {
                if i < rest.len() {
                    assert(rest[i] == objs[i]);
                } else {
                    if ids_of(t).contains(id) {
                        let j = choose|j: int| 0 <= j < ids_of(t).len() && ids_of(t)[j] == id;
                        assert(ids.contains(ids_of(t)[j]));
                    }
                }
            }
        }
    }
}

/// Every object a removal takes is named.
proof fn lemma_taken_named_only<S, G>(objs: Seq<Object<S, G>>, ids: Seq<ObjectId>)
    ensures
        forall|j: int| 0 <= j < ids_of(taken(objs, ids)).len() ==> ids.contains(#[trigger] ids_of(taken(objs, ids))[j]),
    decreases objs.len(),
{
    if objs.len() > 0 {
        let rest = objs.drop_last();
        lemma_taken_named_only(rest, ids);
        let t = taken(rest, ids);
        if ids.contains(objs.last().id_of()) {
            let t2 = t.push(((objs.len() - 1) as usize, objs.last()));
            assert(ids_of(t2) =~= ids_of(t).push(objs.last().id_of()));
            assert forall|j: int| 0 <= j < ids_of(t2).len() implies ids.contains(#[trigger] ids_of(t2)[j]) by {
                if j < ids_of(t).len() {
                    assert(ids_of(t2)[j] == ids_of(t)[j]);
                }
            }
        }
    }
}

/// Removals by two lists that name the same objects of `objs` keep and take
/// the same.
proof fn lemma_same_membership<S, G>(objs: Seq<Object<S, G>>, a: Seq<ObjectId>, b: Seq<ObjectId>)
    requires
        forall|i: int| 0 <= i < objs.len() ==> (a.contains(#[trigger] objs[i].id_of()) <==> b.contains(objs[i].id_of())),
    ensures
        kept(objs, a) == kept(objs, b),
        taken(objs, a) == taken(objs, b),
    decreases objs.len(),
{
    if objs.len() > 0 {
        let rest = objs.drop_last();
        assert forall|i: int| 0 <= i < rest.len() implies (a.contains(#[trigger] rest[i].id_of()) <==> b.contains(rest[i].id_of())) by {
            assert(rest[i] == objs[i]);
        }
        lemma_same_membership(rest, a, b);
        assert(a.contains(objs[objs.len() - 1].id_of()) <==> b.contains(objs[objs.len() - 1].id_of()));
    }
}

} // verus!
