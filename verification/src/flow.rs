//! Whether a stage goes on after a step.

use vstd::prelude::*;

verus! {

/// What a stage does next.
#[derive(Clone, Copy, Debug, PartialEq, Eq, Structural)]
pub enum Flow {
    /// The stage takes another step.
    Continue,
    /// The stage has come to its end.
    Stop,
}

} // verus!
