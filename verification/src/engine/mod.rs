//! The engine: a trader tagged with the phase it is in.

use crate::engine::phase::Phase;
use crate::engine::report::Report;
use crate::engine::state::account::UpdateFromAccount;
use crate::engine::state::command::ExecuteCommand;
use crate::engine::state::consume::Consume;
use crate::engine::state::market::UpdateFromMarket;
use crate::engine::state::order::{Algorithmic, GenerateOrder, Manual};
use crate::engine::state::terminate::Terminate;
use crate::engine::state::Initialise;
use crate::event::{Command, Event, EventFeed};
use crate::execution::{Defect, ExecutionRequest, ExecutionTx, OrderIntent};
use crate::portfolio::{AccountUpdater, Initialiser, MarketUpdater, PortfolioError};
use crate::strategy::OrderGenerator;
use barter_data::model::MarketEvent;
use barter_execution::model::AccountEvent;
use vstd::prelude::*;

pub use crate::engine::builder::EngineBuilder;

pub mod builder;
pub mod error;
pub mod laws;
pub mod phase;
pub mod report;
pub mod state;

verus! {

/// The owner of one trading session: its feed, its strategy, its end of the
/// execution channel, and the payload of the phase it is in.
///
/// A transition consumes the trader and builds its successor from the same
/// feed, strategy and channel handle, so there is never more than one live
/// trader for a session.
pub struct Trader<Strategy, State> {
    pub feed: EventFeed,
    pub strategy: Strategy,
    pub execution_tx: ExecutionTx,
    pub state: State,
}

impl<Strategy, State> Trader<Strategy, State> {
    /// This trader in another phase: everything but the payload is kept.
    pub open spec fn moved_to<Next>(self, state: Next) -> Trader<Strategy, Next> {
        Trader {
            feed: self.feed,
            strategy: self.strategy,
            execution_tx: self.execution_tx,
            state,
        }
    }
}

/// A trading session in one of its phases.
///
/// Each variant wraps a trader whose payload is that of the phase, so a trader
/// cannot be tagged with a phase it is not in. Where a transition is about to
/// handle something, the variant carries it beside the trader.
pub enum Engine<Strategy, Portfolio> where Portfolio: MarketUpdater + AccountUpdater {
    Initialise(Trader<Strategy, Initialise<Portfolio>>),
    Consume(Trader<Strategy, Consume<Portfolio>>),
    UpdateFromMarket((Trader<Strategy, UpdateFromMarket<Portfolio>>, MarketEvent)),
    GenerateOrder(
        Trader<
            Strategy,
            GenerateOrder<Portfolio, Algorithmic<<Portfolio as MarketUpdater>::Signal>>,
        >,
    ),
    GenerateOrderManual((Trader<Strategy, GenerateOrder<Portfolio, Manual>>, Vec<OrderIntent>)),
    UpdateFromAccount((Trader<Strategy, UpdateFromAccount<Portfolio>>, AccountEvent)),
    ExecuteCommand((Trader<Strategy, ExecuteCommand<Portfolio>>, Command)),
    Terminate(Trader<Strategy, Terminate>),
}

impl<Strategy, Portfolio> Engine<Strategy, Portfolio> where
    Portfolio: MarketUpdater + AccountUpdater,
 {
    /// The phase that the engine is tagged with.
    pub open spec fn spec_phase(&self) -> Phase {
        match self {
            Engine::Initialise(_) => Phase::Initialise,
            Engine::Consume(_) => Phase::Consume,
            Engine::UpdateFromMarket(_) => Phase::UpdateFromMarket,
            Engine::GenerateOrder(_) => Phase::GenerateOrder,
            Engine::GenerateOrderManual(_) => Phase::GenerateOrderManual,
            Engine::UpdateFromAccount(_) => Phase::UpdateFromAccount,
            Engine::ExecuteCommand(_) => Phase::ExecuteCommand,
            Engine::Terminate(_) => Phase::Terminate,
        }
    }

    /// The phase that the engine is in.
    #[verifier::when_used_as_spec(spec_phase)]
    pub fn phase(&self) -> (phase: Phase)
        ensures
            phase == self.spec_phase(),
    {
        match self {
            Engine::Initialise(_) => Phase::Initialise,
            Engine::Consume(_) => Phase::Consume,
            Engine::UpdateFromMarket(_) => Phase::UpdateFromMarket,
            Engine::GenerateOrder(_) => Phase::GenerateOrder,
            Engine::GenerateOrderManual(_) => Phase::GenerateOrderManual,
            Engine::UpdateFromAccount(_) => Phase::UpdateFromAccount,
            Engine::ExecuteCommand(_) => Phase::ExecuteCommand,
            Engine::Terminate(_) => Phase::Terminate,
        }
    }

    /// The feed that the engine's trader owns.
    pub open spec fn feed(self) -> EventFeed {
        match self {
            Engine::Initialise(trader) => trader.feed,
            Engine::Consume(trader) => trader.feed,
            Engine::UpdateFromMarket((trader, _)) => trader.feed,
            Engine::GenerateOrder(trader) => trader.feed,
            Engine::GenerateOrderManual((trader, _)) => trader.feed,
            Engine::UpdateFromAccount((trader, _)) => trader.feed,
            Engine::ExecuteCommand((trader, _)) => trader.feed,
            Engine::Terminate(trader) => trader.feed,
        }
    }

    /// The strategy that the engine's trader owns.
    pub open spec fn strategy(self) -> Strategy {
        match self {
            Engine::Initialise(trader) => trader.strategy,
            Engine::Consume(trader) => trader.strategy,
            Engine::UpdateFromMarket((trader, _)) => trader.strategy,
            Engine::GenerateOrder(trader) => trader.strategy,
            Engine::GenerateOrderManual((trader, _)) => trader.strategy,
            Engine::UpdateFromAccount((trader, _)) => trader.strategy,
            Engine::ExecuteCommand((trader, _)) => trader.strategy,
            Engine::Terminate(trader) => trader.strategy,
        }
    }

    /// The end of the execution channel that the engine's trader owns.
    pub open spec fn execution_tx(self) -> ExecutionTx {
        match self {
            Engine::Initialise(trader) => trader.execution_tx,
            Engine::Consume(trader) => trader.execution_tx,
            Engine::UpdateFromMarket((trader, _)) => trader.execution_tx,
            Engine::GenerateOrder(trader) => trader.execution_tx,
            Engine::GenerateOrderManual((trader, _)) => trader.execution_tx,
            Engine::UpdateFromAccount((trader, _)) => trader.execution_tx,
            Engine::ExecuteCommand((trader, _)) => trader.execution_tx,
            Engine::Terminate(trader) => trader.execution_tx,
        }
    }

    /// The live portfolio. There is none before initialisation and none after
    /// termination.
    pub open spec fn portfolio(self) -> Option<Portfolio> {
        match self {
            Engine::Initialise(_) => None,
            Engine::Consume(trader) => Some(trader.state.portfolio),
            Engine::UpdateFromMarket((trader, _)) => Some(trader.state.portfolio),
            Engine::GenerateOrder(trader) => Some(trader.state.portfolio),
            Engine::GenerateOrderManual((trader, _)) => Some(trader.state.portfolio),
            Engine::UpdateFromAccount((trader, _)) => Some(trader.state.portfolio),
            Engine::ExecuteCommand((trader, _)) => Some(trader.state.portfolio),
            Engine::Terminate(_) => None,
        }
    }

    /// The events pulled from the feed so far, oldest first.
    pub open spec fn consumed(self) -> Seq<Event> {
        self.feed()@
    }

    /// The requests accepted by the execution channel so far, oldest first.
    pub open spec fn sent(self) -> Seq<ExecutionRequest> {
        self.execution_tx()@
    }

    /// Whether the session has ended in failure.
    pub open spec fn failed(self) -> bool {
        self matches Engine::Terminate(trader) && trader.state.cause.spec_is_fatal()
    }

    /// Whether the session has ended in good order because its feed closed.
    pub open spec fn ended_by_closed_feed(self) -> bool {
        self matches Engine::Terminate(trader) && trader.state.cause is FeedClosed
    }

    /// Whether `next` is this engine still waiting at the feed: both are in
    /// `Consume`, and nothing was consumed, nothing sent, and neither the
    /// portfolio nor the strategy changed in between.
    pub open spec fn waits(self, next: Self) -> bool {
        &&& self is Consume
        &&& next is Consume
        &&& next.consumed() == self.consumed()
        &&& next.execution_tx() == self.execution_tx()
        &&& next.strategy() == self.strategy()
        &&& next.portfolio() == self.portfolio()
    }

    /// Whether the session is over.
    pub open spec fn spec_is_terminated(&self) -> bool {
        self is Terminate
    }

    /// Whether the session is over.
    #[verifier::when_used_as_spec(spec_is_terminated)]
    pub fn is_terminated(&self) -> (terminated: bool)
        ensures
            terminated == self.spec_is_terminated(),
    {
        match self {
            Engine::Terminate(_) => true,
            _ => false,
        }
    }
}

impl<Strategy, Portfolio> Engine<Strategy, Portfolio> where
    Portfolio: Initialiser<Output = Portfolio> + MarketUpdater + AccountUpdater,
    Strategy: OrderGenerator<Portfolio>,
 {
    /// A builder to put an engine together with.
    pub fn builder() -> (builder: EngineBuilder<Strategy, Portfolio>)
        ensures
            builder == EngineBuilder::<Strategy, Portfolio>::spec_new(),
    {
        EngineBuilder::new()
    }

    /// Whether one transition can take this engine to `next`.
    ///
    /// Each phase has its own relation, which says what the transition does for
    /// every answer that the collaborator it consults may give. A terminated
    /// engine only ever steps to itself.
    pub open spec fn steps_to(self, next: Self) -> bool {
        match self {
            Engine::Initialise(trader) => trader.initialises(next),
            Engine::Consume(trader) => trader.pulls(next),
            Engine::UpdateFromMarket((trader, market)) => trader.applies(market, next),
            Engine::GenerateOrder(trader) => trader.generates(next),
            Engine::GenerateOrderManual((trader, intents)) => trader.places(intents@, next),
            Engine::UpdateFromAccount((trader, account)) => trader.applies(account, next),
            Engine::ExecuteCommand((trader, command)) => trader.executes(command, next),
            Engine::Terminate(_) => next == self,
        }
    }

    /// Performs exactly one transition.
    ///
    /// The successor is in a phase that the transition table permits, or the
    /// session has failed, or the engine is still waiting at a feed that ran
    /// out of patience. A terminated engine is returned as it is.
    pub fn next(self) -> (next: Self)
        ensures
            self.steps_to(next),
            self.spec_phase().spec_permits(next.spec_phase()) || next.failed() || self.waits(next),
            self is Terminate ==> next == self,
    {
        let next = match self {
            Engine::Initialise(trader) => trader.init(),
            Engine::Consume(trader) => trader.next_event(),
            Engine::UpdateFromMarket((trader, market)) => trader.update(market),
            Engine::GenerateOrder(trader) => trader.generate(),
            Engine::GenerateOrderManual((trader, intents)) => trader.generate(intents),
            Engine::UpdateFromAccount((trader, account)) => trader.update(account),
            Engine::ExecuteCommand((trader, command)) => trader.execute_manual_command(command),
            Engine::Terminate(trader) => Engine::Terminate(trader),
        };
        proof {
            self.lemma_step_is_legal(next);
        }
        next
    }

    /// Whether one transition can take this engine to `next` while passing
    /// over `rejection` and `defects`.
    ///
    /// Only the two phases that offer an event to the portfolio can pass over
    /// a rejection, and only the two that place orders can pass over defects.
    pub open spec fn steps_reporting(
        self,
        next: Self,
        rejection: Option<PortfolioError>,
        defects: Seq<Defect>,
    ) -> bool {
        match self {
            Engine::UpdateFromMarket((trader, market)) => trader.applies_reporting(
                market,
                next,
                rejection,
            ) && defects.len() == 0,
            Engine::UpdateFromAccount((trader, account)) => trader.applies_reporting(
                account,
                next,
                rejection,
            ) && defects.len() == 0,
            Engine::GenerateOrder(trader) => trader.generates_reporting(next, defects)
                && rejection is None,
            Engine::GenerateOrderManual((trader, intents)) => trader.places_reporting(
                intents@,
                next,
                defects,
            ) && rejection is None,
            _ => self.steps_to(next) && rejection is None && defects.len() == 0,
        }
    }

    /// Performs exactly one transition, as `next` does, and returns beside the
    /// successor a report of what the transition recovered from.
    pub fn step(self) -> (step: (Self, Report))
        ensures
            self.steps_reporting(step.0, step.1.rejection, step.1.defects@),
            self.steps_to(step.0),
            self.spec_phase().spec_permits(step.0.spec_phase()) || step.0.failed() || self.waits(
                step.0,
            ),
            self is Terminate ==> step.0 == self,
    {
        let step = match self {
            Engine::Initialise(trader) => (trader.init(), Report::clean()),
            Engine::Consume(trader) => (trader.next_event(), Report::clean()),
            Engine::UpdateFromMarket((trader, market)) => {
                let (next, rejection) = trader.update_reporting(market);
                (next, Report::of_event(rejection))
            },
            Engine::GenerateOrder(trader) => {
                let (next, defects) = trader.generate_reporting();
                (next, Report::of_intents(defects))
            },
            Engine::GenerateOrderManual((trader, intents)) => {
                let (next, defects) = trader.generate_reporting(intents);
                (next, Report::of_intents(defects))
            },
            Engine::UpdateFromAccount((trader, account)) => {
                let (next, rejection) = trader.update_reporting(account);
                (next, Report::of_event(rejection))
            },
            Engine::ExecuteCommand((trader, command)) => (
                trader.execute_manual_command(command),
                Report::clean(),
            ),
            Engine::Terminate(trader) => (Engine::Terminate(trader), Report::clean()),
        };
        proof {
            self.lemma_step_is_legal(step.0);
        }
        step
    }

    /// Whether exactly `n` transitions can take this engine to `end`.
    pub open spec fn reaches(self, end: Self, n: nat) -> bool
        decreases n,
    {
        if n == 0 {
            end == self
        } else {
            exists|before: Self|
                self.reaches(before, (n - 1) as nat) && #[trigger] before.steps_to(end)
        }
    }

    /// Whether a session can take this engine to `end` in exactly `n`
    /// transitions of which `pulls` are pulls on the feed, without ever making
    /// a transition from a terminated engine.
    pub open spec fn runs(self, end: Self, n: nat, pulls: nat) -> bool
        decreases n,
    {
        if n == 0 {
            end == self && pulls == 0
        } else {
            exists|before: Self|
                {
                    &&& !before.spec_is_terminated()
                    &&& #[trigger] before.steps_to(end)
                    &&& if before is Consume {
                        pulls > 0 && self.runs(before, (n - 1) as nat, (pulls - 1) as nat)
                    } else {
                        self.runs(before, (n - 1) as nat, pulls)
                    }
                }
        }
    }

    /// Drives the session for at most `max_transitions` transitions: stops as
    /// soon as the engine has terminated, or when it has made that many, and
    /// returns the engine as it then stands.
    ///
    /// Calling it again on an engine that has not terminated continues the
    /// session where it stopped.
    pub fn run_for(self, max_transitions: u64) -> (end: Self)
        ensures
            exists|n: nat, pulls: nat|
                n <= max_transitions && #[trigger] self.runs(end, n, pulls) && self.reaches(end, n)
                    && (end.spec_is_terminated() || n == max_transitions),
            self.spec_is_terminated() ==> end == self,
    {
        let mut engine = self;
        let mut taken: u64 = 0;
        let ghost mut pulls: nat = 0;
        while taken < max_transitions && !engine.is_terminated()
            invariant
                taken <= max_transitions,
                self.runs(engine, taken as nat, pulls),
                self.reaches(engine, taken as nat),
            decreases max_transitions - taken,
        {
            proof {
                if engine is Consume {
                    pulls = pulls + 1;
                }
            }
            engine = engine.next();
            taken = taken + 1;
        }
        proof {
            if self.spec_is_terminated() {
                self.lemma_terminated_stays_fixed(engine, taken as nat);
            }
        }
        engine
    }

    /// Drives the session to its end and returns the terminated engine, for
    /// the caller to report on.
    ///
    /// The call lasts as long as the session does, which is up to the feed. One
    /// call makes no more than `u64::MAX` transitions; should a session ever
    /// outlast them, the engine comes back unterminated and can be run again.
    pub fn run(self) -> (end: Self)
        ensures
            exists|n: nat, pulls: nat|
                n <= u64::MAX && #[trigger] self.runs(end, n, pulls) && self.reaches(end, n) && (
                end.spec_is_terminated() || n == u64::MAX),
            self.spec_is_terminated() ==> end == self,
    {
        self.run_for(u64::MAX)
    }
}

} // verus!
