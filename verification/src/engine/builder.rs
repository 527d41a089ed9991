//! Putting an engine together.

use crate::engine::error::EngineError;
use crate::engine::state::Initialise;
use crate::engine::{Engine, Trader};
use crate::event::EventFeed;
use crate::execution::{ExecutionRequest, ExecutionTx};
use crate::portfolio::{AccountUpdater, MarketUpdater};
use barter_integration::model::{Exchange, Instrument};
use std::collections::HashMap;
use std::marker::PhantomData;
use tokio::sync::mpsc::UnboundedSender;
use vstd::prelude::*;

verus! {

/// Collects the parts of an engine. All four are required: the feed, the
/// strategy, the sender of the execution channel and the instrument universe.
pub struct EngineBuilder<Strategy, Portfolio> {
    pub feed: Option<EventFeed>,
    pub strategy: Option<Strategy>,
    pub execution_tx: Option<ExecutionTx>,
    pub instruments: Option<HashMap<Exchange, Vec<Instrument>>>,
    pub phantom: PhantomData<Portfolio>,
}

impl<Strategy, Portfolio> EngineBuilder<Strategy, Portfolio> where
    Portfolio: MarketUpdater + AccountUpdater,
 {
    /// The builder to which nothing has been given.
    pub open spec fn spec_new() -> Self {
        EngineBuilder {
            feed: None,
            strategy: None,
            execution_tx: None,
            instruments: None,
            phantom: PhantomData,
        }
    }

    /// A builder to which nothing has been given yet.
    #[verifier::when_used_as_spec(spec_new)]
    pub(crate) fn new() -> (builder: Self)
        ensures
            builder == Self::spec_new(),
    {
        Self { feed: None, strategy: None, execution_tx: None, instruments: None, phantom: PhantomData }
    }

    /// Gives the feed to pull events from. A feed given earlier is replaced.
    pub fn feed(self, value: EventFeed) -> (builder: Self)
        ensures
            builder == (EngineBuilder { feed: Some(value), ..self }),
    {
        Self { feed: Some(value), ..self }
    }

    /// Gives the strategy. A strategy given earlier is replaced.
    pub fn strategy(self, value: Strategy) -> (builder: Self)
        ensures
            builder == (EngineBuilder { strategy: Some(value), ..self }),
    {
        Self { strategy: Some(value), ..self }
    }

    /// Gives the sender of the execution channel, through which nothing has
    /// been sent as far as the engine is concerned. A sender given earlier is
    /// replaced.
    pub fn execution_tx(self, value: UnboundedSender<ExecutionRequest>) -> (builder: Self)
        ensures
            builder == (EngineBuilder {
                execution_tx: Some(ExecutionTx::spec_new(value)),
                ..self
            }),
            builder.execution_tx matches Some(handle) && handle.sender() == value && handle@
                == Seq::<ExecutionRequest>::empty(),
    {
        Self { execution_tx: Some(ExecutionTx::new(value)), ..self }
    }

    /// Gives the instrument universe: under each exchange, the instruments
    /// that may be traded there. A universe given earlier is replaced.
    pub fn instruments(self, value: HashMap<Exchange, Vec<Instrument>>) -> (builder: Self)
        ensures
            builder == (EngineBuilder { instruments: Some(value), ..self }),
    {
        Self { instruments: Some(value), ..self }
    }

    /// The name of the first required field that is still missing, the fields
    /// being looked at in the order `feed`, `strategy`, `execution_tx`,
    /// `instruments`.
    pub open spec fn missing(self) -> Option<&'static str> {
        if self.feed is None {
            Some("feed")
        } else if self.strategy is None {
            Some("strategy")
        } else if self.execution_tx is None {
            Some("execution_tx")
        } else if self.instruments is None {
            Some("instruments")
        } else {
            None
        }
    }

    /// With exactly one required field missing, it is that field which is
    /// named; with none missing, none is.
    pub proof fn lemma_missing_names_the_one_missing_field(self)
        ensures
            self.feed is None && self.strategy is Some && self.execution_tx is Some
                && self.instruments is Some ==> self.missing() == Some("feed"),
            self.feed is Some && self.strategy is None && self.execution_tx is Some
                && self.instruments is Some ==> self.missing() == Some("strategy"),
            self.feed is Some && self.strategy is Some && self.execution_tx is None
                && self.instruments is Some ==> self.missing() == Some("execution_tx"),
            self.feed is Some && self.strategy is Some && self.execution_tx is Some
                && self.instruments is None ==> self.missing() == Some("instruments"),
            self.feed is Some && self.strategy is Some && self.execution_tx is Some
                && self.instruments is Some <==> self.missing() is None,
    {
    }

    /// The engine that a complete builder gives: in its first phase, made of
    /// the very parts that were given, with the instrument universe as its
    /// payload.
    pub open spec fn engine(self) -> Engine<Strategy, Portfolio>
        recommends
            self.missing() is None,
    {
        Engine::Initialise(
            Trader {
                feed: self.feed->0,
                strategy: self.strategy->0,
                execution_tx: self.execution_tx->0,
                state: Initialise { instruments: self.instruments->0, phantom: self.phantom },
            },
        )
    }

    /// Builds the engine if every required field was given; otherwise reports
    /// the first that is missing.
    pub fn build(self) -> (result: Result<Engine<Strategy, Portfolio>, EngineError>)
        ensures
            match result {
                Ok(engine) => self.missing() is None && engine == self.engine(),
                Err(error) => self.missing() matches Some(field) && error
                    == EngineError::BuilderIncomplete(field),
            },
    {
        let EngineBuilder { feed, strategy, execution_tx, instruments, phantom } = self;
        let feed = match feed {
            Some(feed) => feed,
            None => { return Err(EngineError::BuilderIncomplete("feed")); },
        };
        let strategy = match strategy {
            Some(strategy) => strategy,
            None => { return Err(EngineError::BuilderIncomplete("strategy")); },
        };
        let execution_tx = match execution_tx {
            Some(execution_tx) => execution_tx,
            None => { return Err(EngineError::BuilderIncomplete("execution_tx")); },
        };
        let instruments = match instruments {
            Some(instruments) => instruments,
            None => { return Err(EngineError::BuilderIncomplete("instruments")); },
        };
        Ok(Engine::Initialise(
            Trader { feed, strategy, execution_tx, state: Initialise { instruments, phantom } },
        ))
    }
}

impl<Strategy, Portfolio> Default for EngineBuilder<Strategy, Portfolio> where
    Portfolio: MarketUpdater + AccountUpdater,
 {
    /// The builder to which nothing has been given.
    fn default() -> (builder: Self)
        ensures
            builder == Self::spec_new(),
    {
        Self::new()
    }
}

} // verus!
