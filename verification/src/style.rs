//! Object appearance that needs no fractional value.
use vstd::prelude::*;

verus! {

/// An opaque colour channel triple. Transparency is kept separately, so a
/// colour and the strength it is drawn at stay independently editable.
#[derive(Clone, Copy, Debug, PartialEq, Eq, Structural)]
pub struct Rgb {
    pub r: u8,
    pub g: u8,
    pub b: u8,
}

impl Rgb {
    pub fn new(r: u8, g: u8, b: u8) -> (colour: Self)
        ensures
            colour == (Rgb { r, g, b }),
    {
        Rgb { r, g, b }
    }
}

} // verus!
