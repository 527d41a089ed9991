//! Errors of the engine itself, as opposed to those of its collaborators.

use vstd::prelude::*;

verus! {

/// What can go wrong when putting an engine together.
#[derive(Clone, Copy, Debug, PartialEq, Eq)]
pub enum EngineError {
    /// A required part was never given to the builder. The string names the
    /// builder's field that is missing.
    BuilderIncomplete(&'static str),
}

} // verus!
