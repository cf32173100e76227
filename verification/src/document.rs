//! The per-output document.
//!
//! Annotations are owned by an output and stored in that output's logical
//! coordinates. Each output has its own document. History is not here: the
//! document is the thing commands act on, not a thing that records its past.
use vstd::prelude::*;
use crate::error::DocumentError;
use crate::id::{ObjectId, OutputId};
use crate::limits::MAX_OBJECTS_PER_OUTPUT;
use crate::object::Object;

verus! {

/// The objects of `objs` whose ids are not in `ids`, in order.
pub open spec fn kept<S, G>(objs: Seq<Object<S, G>>, ids: Seq<ObjectId>) -> Seq<Object<S, G>>
    decreases objs.len(),
{
    if objs.len() == 0 {
        seq![]
    } else {
        let rest = kept(objs.drop_last(), ids);
        if ids.contains(objs.last().id_of()) {
            rest
        } else {
            rest.push(objs.last())
        }
    }
}

/// The objects of `objs` whose ids are in `ids`, each with the position it
/// held, in ascending order of position.
pub open spec fn taken<S, G>(objs: Seq<Object<S, G>>, ids: Seq<ObjectId>) -> Seq<(usize, Object<S, G>)>
    decreases objs.len(),
{
    if objs.len() == 0 {
        seq![]
    } else {
        let rest = taken(objs.drop_last(), ids);
        if ids.contains(objs.last().id_of()) {
            rest.push(((objs.len() - 1) as usize, objs.last()))
        } else {
            rest
        }
    }
}

/// The objects alone of a list of positioned objects.
pub open spec fn without_positions<S, G>(items: Seq<(usize, Object<S, G>)>) -> Seq<Object<S, G>> {
    items.map_values(|item: (usize, Object<S, G>)| item.1)
}

/// `objs` with each positioned object inserted in turn at its position.
pub open spec fn inserted<S, G>(objs: Seq<Object<S, G>>, items: Seq<(usize, Object<S, G>)>) -> Seq<Object<S, G>>
    decreases items.len(),
{
    if items.len() == 0 {
        objs
    } else {
        inserted(objs, items.drop_last()).insert(items.last().0 as int, items.last().1)
    }
}

/// Whether inserting `item` into `current` is allowed in a document bound to
/// `output`: the object belongs there and the position exists.
pub open spec fn insert_step_ok<S, G>(current: Seq<Object<S, G>>, output: Seq<char>, item: (usize, Object<S, G>)) -> bool {
    &&& item.1.output_of() == output
    &&& item.0 <= current.len()
}

/// The index of the first positioned object whose insertion is refused, or
/// the number of items when none is.
pub open spec fn first_refused_insert<S, G>(objs: Seq<Object<S, G>>, output: Seq<char>, items: Seq<(usize, Object<S, G>)>) -> int
    decreases items.len(),
{
    if items.len() == 0 {
        0
    } else {
        let before = first_refused_insert(objs, output, items.drop_last());
        if before < items.len() - 1 {
            before
        } else if insert_step_ok(inserted(objs, items.drop_last()), output, items.last()) {
            items.len() as int
        } else {
            items.len() - 1
        }
    }
}

/// Whether positioned objects can all be put back in order: every position
/// exists at the moment its object is inserted.
pub open spec fn positions_in_range<S, G>(objs: Seq<Object<S, G>>, items: Seq<(usize, Object<S, G>)>) -> bool
    decreases items.len(),
{
    items.len() == 0 || (positions_in_range(objs, items.drop_last()) && items.last().0 <= inserted(
        objs,
        items.drop_last(),
    ).len())
}

/// Whether replacing the object at a position with `item` is allowed in a
/// document bound to `output` that holds `objs`.
pub open spec fn replace_step_ok<S, G>(objs: Seq<Object<S, G>>, output: Seq<char>, item: (usize, Object<S, G>)) -> bool {
    &&& item.0 < objs.len()
    &&& objs[item.0 as int].id_of() == item.1.id_of()
    &&& item.1.output_of() == output
}

/// The index of the first replacement that is refused, or the number of
/// replacements when none is.
pub open spec fn first_refused_replace<S, G>(objs: Seq<Object<S, G>>, output: Seq<char>, items: Seq<(usize, Object<S, G>)>) -> int
    decreases items.len(),
{
    if items.len() == 0 {
        0
    } else {
        let before = first_refused_replace(objs, output, items.drop_last());
        if before < items.len() - 1 {
            before
        } else if replace_step_ok(objs, output, items.last()) {
            items.len() as int
        } else {
            items.len() - 1
        }
    }
}

/// `objs` with each replacement applied in turn.
pub open spec fn replaced<S, G>(objs: Seq<Object<S, G>>, items: Seq<(usize, Object<S, G>)>) -> Seq<Object<S, G>>
    decreases items.len(),
{
    if items.len() == 0 {
        objs
    } else {
        replaced(objs, items.drop_last()).update(items.last().0 as int, items.last().1)
    }
}

/// What each replacement displaced, with its position, in the order the
/// replacements were made.
pub open spec fn displaced<S, G>(objs: Seq<Object<S, G>>, items: Seq<(usize, Object<S, G>)>) -> Seq<(usize, Object<S, G>)>
    decreases items.len(),
{
    if items.len() == 0 {
        seq![]
    } else {
        let before = replaced(objs, items.drop_last());
        displaced(objs, items.drop_last()).push((items.last().0, before[items.last().0 as int]))
    }
}

/// The annotations on one output.
#[derive(Debug)]
pub struct Document<S, G, Z> {
    output: OutputId,
    output_size: Z,
    /// In paint order: a later object draws over an earlier one.
    objects: Vec<Object<S, G>>,
    /// Changes whenever the document might have.
    revision: u64,
}

impl<S, G, Z> Document<S, G, Z> {
    /// The objects, in paint order.
    pub closed spec fn contents(&self) -> Seq<Object<S, G>> {
        self.objects@
    }

    /// The name of the output the document is bound to.
    pub closed spec fn output_of(&self) -> Seq<char> {
        self.output.name()
    }

    pub closed spec fn size_of(&self) -> Z {
        self.output_size
    }

    pub closed spec fn revision_of(&self) -> u64 {
        self.revision
    }

    /// What every document keeps: it is within the object limit, and every
    /// object in it belongs to its output.
    pub open spec fn wf(&self) -> bool {
        &&& self.contents().len() <= MAX_OBJECTS_PER_OUTPUT
        &&& forall|i: int| 0 <= i < self.contents().len() ==> #[trigger] self.contents()[i].output_of() == self.output_of()
    }

    /// Everything but the revision and the objects is as it was.
    pub open spec fn same_binding(&self, other: &Self) -> bool {
        &&& self.output_of() == other.output_of()
        &&& self.size_of() == other.size_of()
    }

    /// An empty document bound to `output`, whose logical size is recorded so
    /// the document can be remapped later if that output goes away.
    pub fn new(output: OutputId, output_size: Z) -> (document: Self)
        ensures
            document.wf(),
            document.contents() == Seq::<Object<S, G>>::empty(),
            document.output_of() == output.name(),
            document.size_of() == output_size,
    {
        Document { output, output_size, objects: Vec::new(), revision: 1 }
    }

    /// A number that changes whenever the document might have changed. It is
    /// moved by every method that takes `&mut self`, including ones that then
    /// fail, so a false change is possible and a missed one is not.
    pub fn revision(&self) -> (revision: u64)
        ensures
            revision == self.revision_of(),
    {
        self.revision
    }

    fn touch(&mut self)
        ensures
            final(self).revision_of() != old(self).revision_of(),
            final(self).contents() == old(self).contents(),
            final(self).same_binding(old(self)),
    {
        if self.revision == u64::MAX {
            self.revision = 0;
        } else {
            self.revision = self.revision + 1;
        }
    }

    pub fn output(&self) -> (output: &OutputId)
        ensures
            output.name() == self.output_of(),
    {
        &self.output
    }

    pub fn output_size(&self) -> (size: &Z)
        ensures
            *size == self.size_of(),
    {
        &self.output_size
    }

    /// Appends an object, returning its id.
    ///
    /// An object of another output is refused first, then one that would take
    /// the document past its limit. Objects are never clamped to the output.
    pub fn add(&mut self, object: Object<S, G>) -> (result: Result<ObjectId, DocumentError>)
        requires
            old(self).wf(),
        ensures
            final(self).wf(),
            final(self).same_binding(old(self)),
            final(self).revision_of() != old(self).revision_of(),
            object.output_of() != old(self).output_of() ==> {
                &&& result matches Err(e)
                &&& e.is_output_mismatch(object.id_of(), old(self).output_of(), object.output_of())
                &&& final(self).contents() == old(self).contents()
            },
            object.output_of() == old(self).output_of() && old(self).contents().len() >= MAX_OBJECTS_PER_OUTPUT ==> {
                &&& result == Err::<ObjectId, DocumentError>(DocumentError::ObjectLimitReached { limit: MAX_OBJECTS_PER_OUTPUT })
                &&& final(self).contents() == old(self).contents()
            },
            object.output_of() == old(self).output_of() && old(self).contents().len() < MAX_OBJECTS_PER_OUTPUT ==> {
                &&& result == Ok::<ObjectId, DocumentError>(object.id_of())
                &&& final(self).contents() == old(self).contents().push(object)
            },
    {
        self.touch();
        if !(*object.output() == self.output) {
            return Err(
                DocumentError::OutputMismatch {
                    object: object.id(),
                    expected: self.output.duplicate(),
                    found: object.output().duplicate(),
                },
            );
        }
        if self.objects.len() >= MAX_OBJECTS_PER_OUTPUT {
            return Err(DocumentError::ObjectLimitReached { limit: MAX_OBJECTS_PER_OUTPUT });
        }
        let id = object.id();
        self.objects.push(object);
        Ok(id)
    }

    /// Removes the named objects and returns them with the positions they
    /// occupied, in ascending order. Reinserting them in that order reproduces
    /// the initial sequence, so undo paints a restored object where it was.
    pub fn remove_with_positions(&mut self, ids: &[ObjectId]) -> (removed: Vec<(usize, Object<S, G>)>)
        requires
            old(self).wf(),
        ensures
            final(self).wf(),
            final(self).same_binding(old(self)),
            final(self).revision_of() != old(self).revision_of(),
            final(self).contents() == kept(old(self).contents(), ids@),
            removed@ == taken(old(self).contents(), ids@),
    {
        self.touch();
        let ghost initial = self.objects@;
        let (remaining, removed) = split_out(take_all(&mut self.objects), ids);
        self.objects = remaining;
        proof {
            lemma_kept_within(initial, ids@, self.output.name());
        }
        removed
    }

    /// Removes the named objects and returns them in document order. Ids that
    /// are not present are ignored.
    pub fn remove(&mut self, ids: &[ObjectId]) -> (removed: Vec<Object<S, G>>)
        requires
            old(self).wf(),
        ensures
            final(self).wf(),
            final(self).same_binding(old(self)),
            final(self).revision_of() != old(self).revision_of(),
            final(self).contents() == kept(old(self).contents(), ids@),
            removed@ == without_positions(taken(old(self).contents(), ids@)),
    {
        let positioned = self.remove_with_positions(ids);
        drop_positions(positioned)
    }

    /// Removes every object, returning them in document order.
    pub fn clear(&mut self) -> (removed: Vec<Object<S, G>>)
        requires
            old(self).wf(),
        ensures
            final(self).wf(),
            final(self).same_binding(old(self)),
            final(self).revision_of() != old(self).revision_of(),
            final(self).contents() == Seq::<Object<S, G>>::empty(),
            removed@ == old(self).contents(),
    {
        self.touch();
        take_all(&mut self.objects)
    }

    /// Puts objects back at the given positions, one after another.
    ///
    /// The whole batch is refused, and nothing changes, when it would take the
    /// document past its limit. Otherwise each object is inserted in turn,
    /// and the first that belongs to another output, or whose position is
    /// past the end at that moment, stops the run with an error: the objects
    /// before it stay inserted.
    pub fn insert_at(&mut self, objects: Vec<(usize, Object<S, G>)>) -> (result: Result<(), DocumentError>)
        requires
            old(self).wf(),
        ensures
            final(self).wf(),
            final(self).same_binding(old(self)),
            final(self).revision_of() != old(self).revision_of(),
            old(self).contents().len() + objects@.len() > MAX_OBJECTS_PER_OUTPUT ==> {
                &&& result == Err::<(), DocumentError>(DocumentError::ObjectLimitReached { limit: MAX_OBJECTS_PER_OUTPUT })
                &&& final(self).contents() == old(self).contents()
            },
            old(self).contents().len() + objects@.len() <= MAX_OBJECTS_PER_OUTPUT ==> {
                let k = first_refused_insert(old(self).contents(), old(self).output_of(), objects@);
                let applied = inserted(old(self).contents(), objects@.take(k));
                &&& final(self).contents() == applied
                &&& k == objects@.len() ==> result is Ok
                &&& k < objects@.len() ==> {
                    let item = objects@[k];
                    if item.1.output_of() != old(self).output_of() {
                        result matches Err(e) && e.is_output_mismatch(item.1.id_of(), old(self).output_of(), item.1.output_of())
                    } else {
                        result == Err::<(), DocumentError>(DocumentError::InvalidPosition { index: item.0, length: applied.len() as usize })
                    }
                }
            },
    {
        self.touch();
        if objects.len() > MAX_OBJECTS_PER_OUTPUT - self.objects.len() {
            return Err(DocumentError::ObjectLimitReached { limit: MAX_OBJECTS_PER_OUTPUT });
        }
        let ghost initial = self.objects@;
        let ghost items = objects@;
        let ghost touched = self.revision;
        let n = objects.len();
        let mut pending = reversed(objects);
        let mut done: usize = 0;
        while done < n
            invariant
                n == items.len(),
                done <= n,
                touched != old(self).revision_of(),
                initial == old(self).contents(),
                items == objects@,
                initial.len() + n <= MAX_OBJECTS_PER_OUTPUT,
                initial.len() <= MAX_OBJECTS_PER_OUTPUT,
                pending@.len() == n - done,
                forall|t: int| 0 <= t < pending@.len() ==> #[trigger] pending@[t] == items[n - 1 - t],
                first_refused_insert(initial, self.output.name(), items.take(done as int)) == done,
                self.objects@ == inserted(initial, items.take(done as int)),
                self.objects@.len() == initial.len() + done,
                self.output.name() == old(self).output_of(),
                self.output_size == old(self).size_of(),
                self.revision == touched,
                forall|i: int| 0 <= i < self.objects@.len() ==> #[trigger] self.objects@[i].output_of() == self.output.name(),
            decreases n - done,
        {
            let ghost taken_before = items.take(done as int);
            let (index, object) = pending.pop().unwrap();
            assert(items.take(done + 1).drop_last() == taken_before);
            assert(items.take(done + 1).last() == items[done as int]);
            if !(*object.output() == self.output) {
                proof {
                    lemma_first_refused_insert_settled(initial, self.output.name(), items, done + 1);
                }
                return Err(
                    DocumentError::OutputMismatch {
                        object: object.id(),
                        expected: self.output.duplicate(),
                        found: object.output().duplicate(),
                    },
                );
            }
            if index > self.objects.len() {
                proof {
                    lemma_first_refused_insert_settled(initial, self.output.name(), items, done + 1);
                }
                return Err(DocumentError::InvalidPosition { index, length: self.objects.len() });
            }
            self.objects.insert(index, object);
            done = done + 1;
        }
        assert(items.take(n as int) == items);
        Ok(())
    }

    /// Swaps objects at the given positions, returning what was there, in the
    /// order the swaps were made.
    ///
    /// Every replacement is checked before any is made: its position must hold
    /// an object with the same id, and the new object must belong to this
    /// output. The first that fails is reported and nothing changes.
    pub fn replace_at(&mut self, objects: Vec<(usize, Object<S, G>)>) -> (result: Result<Vec<(usize, Object<S, G>)>, DocumentError>)
        requires
            old(self).wf(),
        ensures
            final(self).wf(),
            final(self).same_binding(old(self)),
            final(self).revision_of() != old(self).revision_of(),
            ({
                let k = first_refused_replace(old(self).contents(), old(self).output_of(), objects@);
                &&& k == objects@.len() ==> {
                    &&& result matches Ok(previous)
                    &&& previous@ == displaced(old(self).contents(), objects@)
                    &&& final(self).contents() == replaced(old(self).contents(), objects@)
                }
                &&& k < objects@.len() ==> {
                    let item = objects@[k];
                    &&& final(self).contents() == old(self).contents()
                    &&& if item.0 < old(self).contents().len() && old(self).contents()[item.0 as int].id_of() == item.1.id_of() {
                        result matches Err(e) && e.is_output_mismatch(item.1.id_of(), old(self).output_of(), item.1.output_of())
                    } else {
                        result matches Err(e) && e == DocumentError::InvalidPosition { index: item.0, length: old(self).contents().len() as usize }
                    }
                }
            }),
    {
        self.touch();
        let ghost initial = self.objects@;
        let ghost items = objects@;
        let ghost touched = self.revision;
        let n = objects.len();
        let mut checked: usize = 0;
        while checked < n
            invariant
                n == items.len(),
                objects@ == items,
                checked <= n,
                self.objects@ == initial,
                initial == old(self).contents(),
                touched != old(self).revision_of(),
                self.revision == touched,
                self.output.name() == old(self).output_of(),
                self.output_size == old(self).size_of(),
                old(self).wf(),
                first_refused_replace(initial, self.output.name(), items.take(checked as int)) == checked,
            decreases n - checked,
        {
            assert(items.take(checked + 1).drop_last() == items.take(checked as int));
            let index = objects[checked].0;
            let object = &objects[checked].1;
            if index >= self.objects.len() || !(self.objects[index].id() == object.id()) {
                proof {
                    lemma_first_refused_replace_settled(initial, self.output.name(), items, checked + 1);
                }
                return Err(DocumentError::InvalidPosition { index, length: self.objects.len() });
            }
            if !(*object.output() == self.output) {
                proof {
                    lemma_first_refused_replace_settled(initial, self.output.name(), items, checked + 1);
                }
                return Err(
                    DocumentError::OutputMismatch {
                        object: object.id(),
                        expected: self.output.duplicate(),
                        found: object.output().duplicate(),
                    },
                );
            }
            checked = checked + 1;
        }
        assert(items.take(n as int) == items);
        proof {
            lemma_all_replacements_ok(initial, self.output.name(), items);
        }
        let mut pending = reversed(objects);
        let mut previous: Vec<(usize, Object<S, G>)> = Vec::new();
        let mut done: usize = 0;
        while done < n
            invariant
                n == items.len(),
                done <= n,
                pending@.len() == n - done,
                forall|t: int| 0 <= t < pending@.len() ==> #[trigger] pending@[t] == items[n - 1 - t],
                forall|k: int| 0 <= k < n ==> #[trigger] replace_step_ok(initial, self.output.name(), items[k]),
                self.objects@ == replaced(initial, items.take(done as int)),
                self.objects@.len() == initial.len(),
                previous@ == displaced(initial, items.take(done as int)),
                initial.len() <= MAX_OBJECTS_PER_OUTPUT,
                initial == old(self).contents(),
                items == objects@,
                touched != old(self).revision_of(),
                self.revision == touched,
                self.output.name() == old(self).output_of(),
                self.output_size == old(self).size_of(),
                forall|i: int| 0 <= i < initial.len() ==> #[trigger] initial[i].output_of() == self.output.name(),
                forall|i: int| 0 <= i < self.objects@.len() ==> #[trigger] self.objects@[i].output_of() == self.output.name(),
            decreases n - done,
        {
            assert(items.take(done + 1).drop_last() == items.take(done as int));
            assert(items.take(done + 1).last() == items[done as int]);
            let (index, object) = pending.pop().unwrap();
            assert(replace_step_ok(initial, self.output.name(), items[done as int]));
            let mut swapped = object;
            std::mem::swap(&mut self.objects[index], &mut swapped);
            previous.push((index, swapped));
            done = done + 1;
        }
        assert(items.take(n as int) == items);
        Ok(previous)
    }

    /// The position of an object, if it is present.
    pub fn position_of(&self, id: ObjectId) -> (position: Option<usize>)
        ensures
            match position {
                Some(i) => {
                    &&& i < self.contents().len()
                    &&& self.contents()[i as int].id_of() == id
                    &&& forall|j: int| 0 <= j < i ==> #[trigger] self.contents()[j].id_of() != id
                },
                None => forall|j: int| 0 <= j < self.contents().len() ==> #[trigger] self.contents()[j].id_of() != id,
            },
    {
        let mut i: usize = 0;
        while i < self.objects.len()
            invariant
                i <= self.objects@.len(),
                forall|j: int| 0 <= j < i ==> #[trigger] self.objects@[j].id_of() != id,
            decreases self.objects@.len() - i,
        {
            if self.objects[i].id() == id {
                return Some(i);
            }
            i = i + 1;
        }
        None
    }

    /// The objects, in paint order: a later one draws over an earlier one.
    pub fn objects(&self) -> (objects: &[Object<S, G>])
        ensures
            objects@ == self.contents(),
    {
        self.objects.as_slice()
    }

    /// The first object with this id, if any.
    pub fn get(&self, id: ObjectId) -> (found: Option<&Object<S, G>>)
        ensures
            match found {
                Some(object) => exists|i: int|
                    {
                        &&& 0 <= i < self.contents().len()
                        &&& self.contents()[i] == *object
                        &&& object.id_of() == id
                        &&& forall|j: int| 0 <= j < i ==> #[trigger] self.contents()[j].id_of() != id
                    },
                None => forall|j: int| 0 <= j < self.contents().len() ==> #[trigger] self.contents()[j].id_of() != id,
            },
    {
        match self.position_of(id) {
            Some(i) => Some(&self.objects[i]),
            None => None,
        }
    }

    pub fn len(&self) -> (count: usize)
        ensures
            count == self.contents().len(),
    {
        self.objects.len()
    }

    pub fn is_empty(&self) -> (empty: bool)
        ensures
            empty == (self.contents().len() == 0),
    {
        self.objects.len() == 0
    }

    /// Binds the document to another output. Only an empty document can be
    /// rebound, which is why the caller checks first; the revision moves.
    pub(crate) fn rebind_empty(&mut self, output: OutputId)
        requires
            old(self).contents().len() == 0,
        ensures
            final(self).wf(),
            final(self).contents().len() == 0,
            final(self).output_of() == output.name(),
            final(self).size_of() == old(self).size_of(),
            final(self).revision_of() != old(self).revision_of(),
    {
        self.touch();
        self.output = output;
    }
}

/// Moves every element out of a vector, leaving it empty.
fn take_all<T>(v: &mut Vec<T>) -> (all: Vec<T>)
    ensures
        all@ == old(v)@,
        final(v)@ == Seq::<T>::empty(),
{
    let mut all: Vec<T> = Vec::new();
    std::mem::swap(v, &mut all);
    all
}

/// The elements of a vector in reverse order, so popping yields them in
/// their initial order.
fn reversed<T>(v: Vec<T>) -> (r: Vec<T>)
    ensures
        r@.len() == v@.len(),
        forall|t: int| 0 <= t < r@.len() ==> #[trigger] r@[t] == v@[v@.len() - 1 - t],
{
    let ghost initial = v@;
    let mut source = v;
    let mut r: Vec<T> = Vec::new();
    while source.len() > 0
        invariant
            source@.len() + r@.len() == initial.len(),
            source@ == initial.take(source@.len() as int),
            forall|t: int| 0 <= t < r@.len() ==> #[trigger] r@[t] == initial[initial.len() - 1 - t],
        decreases source@.len(),
    {
        let ghost before = source@;
        let x = source.pop().unwrap();
        assert(source@ == initial.take(source@.len() as int));
        r.push(x);
    }
    r
}

/// Whether `ids` holds `id`.
pub fn contains_id(ids: &[ObjectId], id: ObjectId) -> (found: bool)
    ensures
        found == ids@.contains(id),
{
    let mut i: usize = 0;
    while i < ids.len()
        invariant
            i <= ids@.len(),
            forall|j: int| 0 <= j < i ==> ids@[j] != id,
        decreases ids@.len() - i,
    {
        if ids[i] == id {
            assert(ids@[i as int] == id);
            return true;
        }
        i = i + 1;
    }
    false
}

/// Splits objects into those kept and those whose ids are named, the latter
/// with their positions.
fn split_out<S, G>(objects: Vec<Object<S, G>>, ids: &[ObjectId]) -> (parts: (Vec<Object<S, G>>, Vec<(usize, Object<S, G>)>))
    ensures
        parts.0@ == kept(objects@, ids@),
        parts.1@ == taken(objects@, ids@),
{
    let ghost initial = objects@;
    let n = objects.len();
    let mut pending = reversed(objects);
    let mut remaining: Vec<Object<S, G>> = Vec::new();
    let mut removed: Vec<(usize, Object<S, G>)> = Vec::new();
    let mut index: usize = 0;
    while index < n
        invariant
            n == initial.len(),
            index <= n,
            pending@.len() == n - index,
            forall|t: int| 0 <= t < pending@.len() ==> #[trigger] pending@[t] == initial[n - 1 - t],
            remaining@ == kept(initial.take(index as int), ids@),
            removed@ == taken(initial.take(index as int), ids@),
        decreases n - index,
    {
        let object = pending.pop().unwrap();
        let ghost prefix = initial.take(index + 1);
        assert(prefix.drop_last() == initial.take(index as int));
        assert(prefix.last() == object);
        if contains_id(ids, object.id()) {
            removed.push((index, object));
        } else {
            remaining.push(object);
        }
        index = index + 1;
    }
    assert(initial.take(n as int) == initial);
    (remaining, removed)
}

/// Drops the positions from positioned objects.
fn drop_positions<S, G>(items: Vec<(usize, Object<S, G>)>) -> (objects: Vec<Object<S, G>>)
    ensures
        objects@ == without_positions(items@),
{
    let ghost initial = items@;
    let n = items.len();
    let mut pending = reversed(items);
    let mut objects: Vec<Object<S, G>> = Vec::new();
    let mut i: usize = 0;
    while i < n
        invariant
            n == initial.len(),
            i <= n,
            pending@.len() == n - i,
            forall|t: int| 0 <= t < pending@.len() ==> #[trigger] pending@[t] == initial[n - 1 - t],
            objects@ == without_positions(initial.take(i as int)),
        decreases n - i,
    {
        let (_, object) = pending.pop().unwrap();
        assert(without_positions(initial.take(i + 1)) == without_positions(initial.take(i as int)).push(object));
        objects.push(object);
        i = i + 1;
    }
    assert(initial.take(n as int) == initial);
    objects
}

/// What is kept is drawn from what was there, so it belongs to the same
/// output, and it is no longer.
proof fn lemma_kept_within<S, G>(objs: Seq<Object<S, G>>, ids: Seq<ObjectId>, output: Seq<char>)
    requires
        forall|i: int| 0 <= i < objs.len() ==> #[trigger] objs[i].output_of() == output,
    ensures
        kept(objs, ids).len() <= objs.len(),
        forall|i: int| 0 <= i < kept(objs, ids).len() ==> #[trigger] kept(objs, ids)[i].output_of() == output,
    decreases objs.len(),
{
    if objs.len() > 0 {
        let rest = objs.drop_last();
        assert forall|i: int| 0 <= i < rest.len() implies #[trigger] rest[i].output_of() == output by {
            assert(rest[i] == objs[i]);
        }
        lemma_kept_within(rest, ids, output);
    }
}

/// When no replacement is refused, every one of them is allowed.
proof fn lemma_all_replacements_ok<S, G>(objs: Seq<Object<S, G>>, output: Seq<char>, items: Seq<(usize, Object<S, G>)>)
    requires
        first_refused_replace(objs, output, items) == items.len(),
    ensures
        forall|k: int| 0 <= k < items.len() ==> #[trigger] replace_step_ok(objs, output, items[k]),
    decreases items.len(),
{
    if items.len() > 0 {
        let rest = items.drop_last();
        let before = first_refused_replace(objs, output, rest);
        assert(before <= rest.len()) by {
            lemma_first_refused_replace_bounded(objs, output, rest);
        }
        lemma_all_replacements_ok(objs, output, rest);
        assert forall|k: int| 0 <= k < items.len() implies #[trigger] replace_step_ok(objs, output, items[k]) by {
            if k < rest.len() {
                assert(rest[k] == items[k]);
            }
        }
    }
}

proof fn lemma_first_refused_replace_bounded<S, G>(objs: Seq<Object<S, G>>, output: Seq<char>, items: Seq<(usize, Object<S, G>)>)
    ensures
        0 <= first_refused_replace(objs, output, items) <= items.len(),
    decreases items.len(),
{
    if items.len() > 0 {
        lemma_first_refused_replace_bounded(objs, output, items.drop_last());
    }
}

/// Once an insertion has been refused, later items do not change which one
/// was first.
proof fn lemma_first_refused_insert_settled<S, G>(objs: Seq<Object<S, G>>, output: Seq<char>, items: Seq<(usize, Object<S, G>)>, j: int)
    requires
        0 <= j <= items.len(),
        first_refused_insert(objs, output, items.take(j)) < j,
    ensures
        first_refused_insert(objs, output, items) == first_refused_insert(objs, output, items.take(j)),
    decreases items.len(),
{
    if items.len() == j {
        assert(items.take(j) == items);
    } else {
        let rest = items.drop_last();
        assert(rest.take(j) == items.take(j));
        lemma_first_refused_insert_settled(objs, output, rest, j);
    }
}

/// Once a replacement has been refused, later items do not change which one
/// was first.
proof fn lemma_first_refused_replace_settled<S, G>(objs: Seq<Object<S, G>>, output: Seq<char>, items: Seq<(usize, Object<S, G>)>, j: int)
    requires
        0 <= j <= items.len(),
        first_refused_replace(objs, output, items.take(j)) < j,
    ensures
        first_refused_replace(objs, output, items) == first_refused_replace(objs, output, items.take(j)),
    decreases items.len(),
{
    if items.len() == j {
        assert(items.take(j) == items);
    } else {
        let rest = items.drop_last();
        assert(rest.take(j) == items.take(j));
        lemma_first_refused_replace_settled(objs, output, rest, j);
    }
}

} // verus!
