//! Identity for objects and outputs.
use vstd::prelude::*;

verus! {

/// Identity of an annotation object within a document.
///
/// Values come from an [`IdSource`], so tests are deterministic: the domain
/// never reads a clock or a random generator itself.
#[derive(Clone, Copy, Debug, PartialEq, Eq, Structural, PartialOrd, Ord, Hash)]
pub struct ObjectId(pub(crate) u64);

impl ObjectId {
    /// The raw number behind the id.
    pub closed spec fn value(self) -> u64 {
        self.0
    }

    /// The raw value, for serialization and diagnostics only.
    pub fn get(self) -> (value: u64)
        ensures
            value == self.value(),
    {
        self.0
    }

    /// Rebuilds an id from a raw value.
    pub fn from_raw(value: u64) -> (id: Self)
        ensures
            id.value() == value,
    {
        ObjectId(value)
    }
}

/// An id is its value: two ids are equal exactly when their values are, so
/// a source started from the same seed issues the same ids.
pub proof fn law_ids_are_their_values(a: ObjectId, b: ObjectId)
    ensures
        a.value() == b.value() <==> a == b,
{
}

/// Injected, monotonic source of [`ObjectId`] values.
#[derive(Clone, Debug)]
pub struct IdSource {
    next: u64,
}

impl IdSource {
    /// The value the next id will carry.
    pub closed spec fn upcoming(self) -> u64 {
        self.next
    }

    /// Starts issuing ids at `seed`.
    pub fn starting_at(seed: u64) -> (source: Self)
        ensures
            source.upcoming() == seed,
    {
        IdSource { next: seed }
    }

    /// Issues the next id.
    ///
    /// The source must not be exhausted: the last `u64` is never issued,
    /// because the source would have nowhere to go after it.
    pub fn next_id(&mut self) -> (id: ObjectId)
        requires
            old(self).upcoming() < u64::MAX,
        ensures
            id.value() == old(self).upcoming(),
            final(self).upcoming() == old(self).upcoming() + 1,
    {
        let id = ObjectId(self.next);
        self.next = self.next + 1;
        id
    }

    /// Issues the next `count` ids, in order.
    pub fn take(&mut self, count: usize) -> (ids: Vec<ObjectId>)
        requires
            old(self).upcoming() + count <= u64::MAX,
        ensures
            ids@.len() == count,
            forall|i: int| 0 <= i < count ==> #[trigger] ids@[i].value() == old(self).upcoming() + i,
            final(self).upcoming() == old(self).upcoming() + count,
    {
        let mut ids: Vec<ObjectId> = Vec::new();
        let mut issued: usize = 0;
        while issued < count
            invariant
                issued <= count,
                ids@.len() == issued,
                self.upcoming() == old(self).upcoming() + issued,
                old(self).upcoming() + count <= u64::MAX,
                forall|i: int| 0 <= i < issued ==> #[trigger] ids@[i].value() == old(self).upcoming() + i,
            decreases count - issued,
        {
            let id = self.next_id();
            ids.push(id);
            issued = issued + 1;
        }
        ids
    }
}

/// Ids issued one after another never repeat: each is one more than the one
/// before, so a source hands out every value once.
pub proof fn law_issued_ids_are_distinct(ids: Seq<ObjectId>, first: u64)
    requires
        forall|i: int| 0 <= i < ids.len() ==> #[trigger] ids[i].value() == first + i,
    ensures
        forall|i: int, j: int| 0 <= i < j < ids.len() ==> (#[trigger] ids[i]) != (#[trigger] ids[j]),
{
    assert forall|i: int, j: int| 0 <= i < j < ids.len() implies (#[trigger] ids[i]) != (#[trigger] ids[j]) by {
        assert(ids[i].value() != ids[j].value());
    }
}

/// Identity of a display output that a document is bound to: a name the
/// backend supplied, never a monitor index.
#[derive(Clone, Debug, Eq, PartialOrd, Ord, Hash)]
pub struct OutputId(pub(crate) String);

impl OutputId {
    /// The output's name as text.
    pub closed spec fn name(&self) -> Seq<char> {
        self.0@
    }

    pub fn new(name: &str) -> (id: Self)
        ensures
            id.name() == name@,
    {
        OutputId(String::from_str(name))
    }

    pub fn as_str(&self) -> (name: &str)
        ensures
            name@ == self.name(),
    {
        self.0.as_str()
    }

    /// A copy carrying the same name.
    pub fn duplicate(&self) -> (copy: Self)
        ensures
            copy.name() == self.name(),
    {
        OutputId(self.0.clone())
    }
}

impl PartialEq for OutputId {
    fn eq(&self, other: &Self) -> (same: bool) {
        self.0 == other.0
    }
}

impl vstd::std_specs::cmp::PartialEqSpecImpl for OutputId {
    open spec fn obeys_eq_spec() -> bool {
        true
    }

    open spec fn eq_spec(&self, other: &Self) -> bool {
        self.name() == other.name()
    }
}

} // verus!
