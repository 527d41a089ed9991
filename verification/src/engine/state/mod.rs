//! The payload of each phase, and with it the transition that leaves the phase.
//!
//! This file holds the first phase; the others have a file each.

use crate::engine::state::consume::Consume;
use crate::engine::state::terminate::{Cause, Terminate};
use crate::engine::{Engine, Trader};
use crate::portfolio::{AccountUpdater, Initialiser, MarketUpdater, PortfolioError};
use barter_integration::model::{Exchange, Instrument};
use std::collections::HashMap;
use std::marker::PhantomData;
use vstd::prelude::*;

pub mod account;
pub mod command;
pub mod consume;
pub mod market;
pub mod order;
pub mod terminate;

verus! {

/// Payload of the first phase: the instrument universe, which lists under each
/// exchange the instruments that may be traded there, and a marker for the
/// portfolio that is yet to be built from it.
pub struct Initialise<Portfolio> {
    pub instruments: HashMap<Exchange, Vec<Instrument>>,
    pub phantom: PhantomData<Portfolio>,
}

impl<Strategy, Portfolio> Trader<Strategy, Initialise<Portfolio>> where
    Portfolio: Initialiser<Output = Portfolio> + MarketUpdater + AccountUpdater,
 {
    /// Where the attempt to build a portfolio leads: to the feed with the new
    /// portfolio, or, if it could not be built, straight to `Terminate` with
    /// the error as the cause.
    pub open spec fn spec_initialised(
        self,
        outcome: Result<Portfolio, PortfolioError>,
    ) -> Engine<Strategy, Portfolio> {
        match outcome {
            Ok(portfolio) => Engine::Consume(self.moved_to(Consume { portfolio })),
            Err(error) => Engine::Terminate(
                self.moved_to(Terminate { cause: Cause::InitialisationFailed(error) }),
            ),
        }
    }

    /// Acts on the attempt to build a portfolio.
    #[verifier::when_used_as_spec(spec_initialised)]
    pub fn initialised(self, outcome: Result<Portfolio, PortfolioError>) -> (next: Engine<
        Strategy,
        Portfolio,
    >)
        ensures
            next == self.spec_initialised(outcome),
    {
        let Trader { feed, strategy, execution_tx, state: _ } = self;
        match outcome {
            Ok(portfolio) => Engine::Consume(
                Trader { feed, strategy, execution_tx, state: Consume { portfolio } },
            ),
            Err(error) => Engine::Terminate(
                Trader {
                    feed,
                    strategy,
                    execution_tx,
                    state: Terminate { cause: Cause::InitialisationFailed(error) },
                },
            ),
        }
    }

    /// Whether `next` can follow from initialising: it is what some outcome of
    /// building the portfolio for the instrument universe leads to.
    pub open spec fn initialises(self, next: Engine<Strategy, Portfolio>) -> bool {
        exists|outcome: Result<Portfolio, PortfolioError>|
            Portfolio::may_init(self.state.instruments, outcome) && next
                == #[trigger] self.spec_initialised(outcome)
    }

    /// Has the portfolio built from the instrument universe and acts on the
    /// outcome.
    pub fn init(self) -> (next: Engine<Strategy, Portfolio>)
        ensures
            self.initialises(next),
    {
        let outcome = Portfolio::init(&self.state.instruments);
        self.initialised(outcome)
    }
}

} // verus!
