//! Defensive bounds on document size: a document reports a limit rather than
//! growing without bound.
use vstd::prelude::*;

verus! {

/// Objects one output's document may hold.
pub const MAX_OBJECTS_PER_OUTPUT: usize = 10_000;

/// Sampled points a single stroke may hold.
pub const MAX_STROKE_POINTS: usize = 100_000;

/// Completed edits that undo can reach. Older ones are dropped, and the
/// history says that it dropped them.
pub const MAX_UNDO_TRANSACTIONS: usize = 100;

} // verus!
