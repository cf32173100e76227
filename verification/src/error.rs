//! Typed document failures: every variant names what was refused and why.
use vstd::prelude::*;
use crate::id::{ObjectId, OutputId};
use crate::text::{decimal, push_decimal};

verus! {

#[derive(Clone, Debug, PartialEq, Eq)]
pub enum DocumentError {
    /// A stroke with no samples at all. Distinct from a dot, which has one.
    EmptyStroke,
    /// A stroke exceeding the sample limit.
    StrokeTooLong { points: usize, limit: usize },
    /// A drag that went nowhere: storing it would create an object nobody can
    /// see, select, or erase.
    DegenerateShape { shape: &'static str },
    /// The object belongs to a different output than the document.
    OutputMismatch { object: ObjectId, expected: OutputId, found: OutputId },
    /// The document is full.
    ObjectLimitReached { limit: usize },
    /// A position that does not exist in the document, or that holds a
    /// different object than the caller believes.
    InvalidPosition { index: usize, length: usize },
}

impl DocumentError {
    /// Whether this is the refusal of an object `object` from output `found`
    /// by a document bound to output `expected`.
    pub open spec fn is_output_mismatch(self, object: ObjectId, expected: Seq<char>, found: Seq<char>) -> bool {
        match self {
            DocumentError::OutputMismatch { object: o, expected: e, found: f } => {
                &&& o == object
                &&& e.name() == expected
                &&& f.name() == found
            },
            _ => false,
        }
    }

    /// The sentence that reports this refusal to the user.
    pub open spec fn sentence(self) -> Seq<char> {
        match self {
            DocumentError::EmptyStroke => "a stroke must have at least one point"@,
            DocumentError::StrokeTooLong { points, limit } => "a stroke of "@ + decimal(points as nat)
                + " points exceeds the limit of "@ + decimal(limit as nat),
            DocumentError::DegenerateShape { shape } => "the "@ + shape@ + " is too small to be drawn or selected"@,
            DocumentError::OutputMismatch { object, expected, found } => "object #"@ + decimal(
                object.value() as nat,
            ) + " belongs to output "@ + found.name() + ", not "@ + expected.name(),
            DocumentError::ObjectLimitReached { limit } => "this output already holds the maximum of "@ + decimal(
                limit as nat,
            ) + " objects"@,
            DocumentError::InvalidPosition { index, length } => "position "@ + decimal(index as nat)
                + " is not in a document of "@ + decimal(length as nat) + " objects"@,
        }
    }

    /// What to tell the user: what was refused and why.
    pub fn message(&self) -> (text: String)
        ensures
            text@ == self.sentence(),
    {
        match self {
            DocumentError::EmptyStroke => String::from_str("a stroke must have at least one point"),
            DocumentError::StrokeTooLong { points, limit } => {
                let mut text = String::from_str("a stroke of ");
                push_decimal(&mut text, *points as u64);
                text.append(" points exceeds the limit of ");
                push_decimal(&mut text, *limit as u64);
                text
            },
            DocumentError::DegenerateShape { shape } => {
                let mut text = String::from_str("the ");
                text.append(shape);
                text.append(" is too small to be drawn or selected");
                text
            },
            DocumentError::OutputMismatch { object, expected, found } => {
                let mut text = String::from_str("object #");
                push_decimal(&mut text, object.get());
                text.append(" belongs to output ");
                text.append(found.as_str());
                text.append(", not ");
                text.append(expected.as_str());
                text
            },
            DocumentError::ObjectLimitReached { limit } => {
                let mut text = String::from_str("this output already holds the maximum of ");
                push_decimal(&mut text, *limit as u64);
                text.append(" objects");
                text
            },
            DocumentError::InvalidPosition { index, length } => {
                let mut text = String::from_str("position ");
                push_decimal(&mut text, *index as u64);
                text.append(" is not in a document of ");
                push_decimal(&mut text, *length as u64);
                text.append(" objects");
                text
            },
        }
    }
}

} // verus!
