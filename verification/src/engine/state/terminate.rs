//! The terminal phase.

use crate::execution::ExecutionRequest;
use crate::portfolio::PortfolioError;
use vstd::prelude::*;

verus! {

/// Why a trading session ended.
#[derive(Debug, PartialEq)]
pub enum Cause {
    /// The operator asked for it.
    ShutdownCommand,
    /// The feed closed without a shutdown command, which counts as one.
    FeedClosed,
    /// The portfolio could not be built, so the session never started.
    InitialisationFailed(PortfolioError),
    /// The consumer of the execution channel is gone, so no order can ever be
    /// placed again. The request is the one that could not be delivered.
    ExecutionChannelClosed(ExecutionRequest),
}

impl Cause {
    /// A session that ended for a fatal cause has failed; the other causes are
    /// orderly ends.
    pub open spec fn spec_is_fatal(&self) -> bool {
        self is InitialisationFailed || self is ExecutionChannelClosed
    }

    /// Whether the session ended in failure.
    #[verifier::when_used_as_spec(spec_is_fatal)]
    pub fn is_fatal(&self) -> (fatal: bool)
        ensures
            fatal == self.spec_is_fatal(),
    {
        match self {
            Cause::ShutdownCommand | Cause::FeedClosed => false,
            Cause::InitialisationFailed(_) | Cause::ExecutionChannelClosed(_) => true,
        }
    }
}

/// Payload of the terminal phase: nothing but the reason for the end.
#[derive(Debug, PartialEq)]
pub struct Terminate {
    pub cause: Cause,
}

} // verus!
