//! The phases of the engine and the table of transitions between them.

use vstd::prelude::*;

verus! {

/// The tag of an engine: where in its cycle a trading session stands.
#[derive(Clone, Copy, Debug, PartialEq, Eq, Structural)]
pub enum Phase {
    /// The portfolio has yet to be built.
    Initialise,
    /// Waiting for the next item of the feed.
    Consume,
    /// About to apply a market event to the portfolio.
    UpdateFromMarket,
    /// About to ask the strategy for orders.
    GenerateOrder,
    /// About to place the orders an operator asked for.
    GenerateOrderManual,
    /// About to apply an account event to the portfolio.
    UpdateFromAccount,
    /// About to carry out an operator's command.
    ExecuteCommand,
    /// The session is over.
    Terminate,
}

impl Phase {
    /// The transition table: whether a session in phase `self` may be in phase
    /// `next` one transition later, provided nothing fatal happens.
    pub open spec fn spec_permits(self, next: Phase) -> bool {
        match self {
            Phase::Initialise => next == Phase::Consume,
            Phase::Consume => next == Phase::UpdateFromMarket || next == Phase::UpdateFromAccount
                || next == Phase::ExecuteCommand || next == Phase::Terminate,
            Phase::UpdateFromMarket => next == Phase::GenerateOrder || next == Phase::Consume,
            Phase::GenerateOrder => next == Phase::Consume,
            Phase::GenerateOrderManual => next == Phase::Consume,
            Phase::UpdateFromAccount => next == Phase::Consume,
            Phase::ExecuteCommand => next == Phase::GenerateOrderManual || next == Phase::Consume
                || next == Phase::Terminate,
            Phase::Terminate => next == Phase::Terminate,
        }
    }

    /// Looks `self` and `next` up in the transition table.
    #[verifier::when_used_as_spec(spec_permits)]
    pub fn permits(self, next: Phase) -> (permitted: bool)
        ensures
            permitted == self.spec_permits(next),
    {
        match self {
            Phase::Initialise => next == Phase::Consume,
            Phase::Consume => next == Phase::UpdateFromMarket || next == Phase::UpdateFromAccount
                || next == Phase::ExecuteCommand || next == Phase::Terminate,
            Phase::UpdateFromMarket => next == Phase::GenerateOrder || next == Phase::Consume,
            Phase::GenerateOrder | Phase::GenerateOrderManual | Phase::UpdateFromAccount => next
                == Phase::Consume,
            Phase::ExecuteCommand => next == Phase::GenerateOrderManual || next == Phase::Consume
                || next == Phase::Terminate,
            Phase::Terminate => next == Phase::Terminate,
        }
    }

    /// How many transitions a session in this phase makes at most before it is
    /// back at the feed or over: none where it is there already, one where the
    /// next transition leads there, two where orders may have to be placed
    /// first.
    pub open spec fn distance_to_feed(self) -> nat {
        match self {
            Phase::Initialise => 1,
            Phase::Consume => 0,
            Phase::UpdateFromMarket => 2,
            Phase::GenerateOrder => 1,
            Phase::GenerateOrderManual => 1,
            Phase::UpdateFromAccount => 1,
            Phase::ExecuteCommand => 2,
            Phase::Terminate => 0,
        }
    }

    /// Only `Terminate` is terminal.
    pub open spec fn spec_is_terminal(self) -> bool {
        self == Phase::Terminate
    }

    /// Whether a session in this phase is over.
    #[verifier::when_used_as_spec(spec_is_terminal)]
    pub fn is_terminal(self) -> (terminal: bool)
        ensures
            terminal == self.spec_is_terminal(),
    {
        self == Phase::Terminate
    }
}

} // verus!
