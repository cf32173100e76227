//! One display output as a probe observed it.
use vstd::prelude::*;

verus! {

/// One display output as a probe observed it.
///
/// Fields are optional because protocols deliver them separately and some
/// versions never send a name at all. A missing value is `None`, never a
/// made up default.
#[derive(Clone, Debug, Default, PartialEq)]
pub struct OutputInfo {
    /// The compositor's name for the output, such as `DP-1`.
    pub name: Option<String>,
    pub description: Option<String>,
    /// Physical resolution in pixels.
    pub resolution: Option<(i32, i32)>,
    pub refresh_mhz: Option<i32>,
    /// Integer scale factor. Fractional scaling is reported separately and
    /// is not established by this value.
    pub scale: Option<i32>,
    /// Transform as the protocol reports it, such as `normal` or `90`.
    pub transform: Option<String>,
}

} // verus!
