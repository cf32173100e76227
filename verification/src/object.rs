//! Annotation objects.
//!
//! One completed user gesture is one object. What an object looks like and
//! where it lies are carried as the style and shape types the caller chooses;
//! the document only ever reads an object's identity and its output.
use vstd::prelude::*;
use crate::error::DocumentError;
use crate::id::{ObjectId, OutputId};
use crate::limits::MAX_STROKE_POINTS;

verus! {

/// Whether a stroke was drawn with the pen or the highlighter. Recorded
/// because it changes how the stroke is painted.
#[derive(Clone, Copy, Debug, PartialEq, Eq, Structural)]
pub enum StrokeKind {
    Pen,
    Highlighter,
}

/// One annotation: an id, the output it belongs to, how it looks, and where it
/// is.
#[derive(Clone, Debug, PartialEq)]
pub struct Object<S, G> {
    id: ObjectId,
    output: OutputId,
    style: S,
    shape: G,
}

impl<S, G> Object<S, G> {
    pub closed spec fn id_of(&self) -> ObjectId {
        self.id
    }

    /// The name of the output the object belongs to.
    pub closed spec fn output_of(&self) -> Seq<char> {
        self.output.name()
    }

    pub closed spec fn style_of(&self) -> S {
        self.style
    }

    pub closed spec fn shape_of(&self) -> G {
        self.shape
    }

    pub fn new(id: ObjectId, output: OutputId, style: S, shape: G) -> (object: Self)
        ensures
            object.id_of() == id,
            object.output_of() == output.name(),
            object.style_of() == style,
            object.shape_of() == shape,
    {
        Object { id, output, style, shape }
    }

    pub fn id(&self) -> (id: ObjectId)
        ensures
            id == self.id_of(),
    {
        self.id
    }

    pub fn output(&self) -> (output: &OutputId)
        ensures
            output.name() == self.output_of(),
    {
        &self.output
    }

    pub fn style(&self) -> (style: &S)
        ensures
            *style == self.style_of(),
    {
        &self.style
    }

    pub fn shape(&self) -> (shape: &G)
        ensures
            *shape == self.shape_of(),
    {
        &self.shape
    }
}

/// Whether a stroke of `points` samples may become an object: it must have
/// at least one sample, a dot being one, and no more than the limit.
pub fn check_stroke(points: usize) -> (checked: Result<(), DocumentError>)
    ensures
        points == 0 ==> checked == Err::<(), DocumentError>(DocumentError::EmptyStroke),
        points > MAX_STROKE_POINTS ==> checked == Err::<(), DocumentError>(
            DocumentError::StrokeTooLong { points, limit: MAX_STROKE_POINTS },
        ),
        0 < points <= MAX_STROKE_POINTS ==> checked is Ok,
{
    if points == 0 {
        return Err(DocumentError::EmptyStroke);
    }
    if points > MAX_STROKE_POINTS {
        return Err(DocumentError::StrokeTooLong { points, limit: MAX_STROKE_POINTS });
    }
    Ok(())
}

} // verus!
