//! What can be asked of a running overlay from outside its event loop.
use vstd::prelude::*;
use crate::tool::Action;

verus! {

/// Something asked of the overlay from outside its event loop.
#[derive(Clone, Copy, Debug, PartialEq, Eq, Structural)]
pub enum OverlayRequest {
    /// A controller action: a mode change or a withdrawal.
    Act(Action),
    /// Stop running and withdraw.
    Quit,
}

/// The overlay is no longer running, so the request went nowhere.
#[derive(Clone, Copy, Debug, PartialEq, Eq, Structural)]
pub struct OverlayStopped;

impl OverlayStopped {
    /// The sentence a user is shown.
    pub fn message(&self) -> (message: &'static str)
        ensures
            message@ == "the overlay is no longer running"@,
    {
        "the overlay is no longer running"
    }
}

} // verus!
