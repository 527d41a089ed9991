//! GenerateOrder: turn a decision to trade into execution requests.

use crate::engine::state::consume::Consume;
use crate::engine::state::terminate::{Cause, Terminate};
use crate::engine::{Engine, Trader};
use crate::execution::{requests_of, Defect, Dispatch, ExecutionTx, OrderIntent};
use crate::portfolio::{AccountUpdater, MarketUpdater};
use crate::strategy::OrderGenerator;
use barter_data::model::MarketEvent;
use vstd::prelude::*;

verus! {

/// Origin of orders that a strategy decides on: the market event that
/// prompted the decision and the signal the portfolio raised for it.
pub struct Algorithmic<Signal> {
    pub market: MarketEvent,
    pub signal: Signal,
}

/// Origin of orders that an operator asked for. The intents travel beside the
/// trader.
pub struct Manual;

/// Payload of the phase that places orders: the live portfolio, and where the
/// orders come from.
pub struct GenerateOrder<Portfolio, Origin> {
    pub portfolio: Portfolio,
    pub origin: Origin,
}

impl<Strategy, Portfolio, Origin> Trader<Strategy, GenerateOrder<Portfolio, Origin>> where
    Portfolio: MarketUpdater + AccountUpdater,
 {
    /// Where the fate of a batch of requests leads: back to the feed once the
    /// channel has taken them all, and to `Terminate` if it refused one. The
    /// portfolio is the same either way, for placing orders never changes it.
    pub open spec fn spec_settled(self, outcome: Dispatch) -> Engine<Strategy, Portfolio> {
        match outcome {
            Dispatch::Delivered => Engine::Consume(
                self.moved_to(Consume { portfolio: self.state.portfolio }),
            ),
            Dispatch::ChannelClosed(refused) => Engine::Terminate(
                self.moved_to(Terminate { cause: Cause::ExecutionChannelClosed(refused) }),
            ),
        }
    }

    /// Acts on the fate of a batch of requests.
    #[verifier::when_used_as_spec(spec_settled)]
    pub fn settled(self, outcome: Dispatch) -> (next: Engine<Strategy, Portfolio>)
        ensures
            next == self.spec_settled(outcome),
            outcome matches Dispatch::ChannelClosed(refused) ==> next == Engine::<
                Strategy,
                Portfolio,
            >::Terminate(
                self.moved_to(Terminate { cause: Cause::ExecutionChannelClosed(refused) }),
            ),
    {
        let Trader { feed, strategy, execution_tx, state } = self;
        match outcome {
            Dispatch::Delivered => Engine::Consume(
                Trader { feed, strategy, execution_tx, state: Consume { portfolio: state.portfolio } },
            ),
            Dispatch::ChannelClosed(refused) => Engine::Terminate(
                Trader {
                    feed,
                    strategy,
                    execution_tx,
                    state: Terminate { cause: Cause::ExecutionChannelClosed(refused) },
                },
            ),
        }
    }

    /// Whether `next` can follow from placing `intents`: the requests made of
    /// them are handed to the channel in order, and the fate of the batch is
    /// acted on.
    pub open spec fn places(
        self,
        intents: Seq<OrderIntent>,
        next: Engine<Strategy, Portfolio>,
    ) -> bool {
        exists|outcome: Dispatch, execution_tx: ExecutionTx|
            #[trigger] self.execution_tx.transmits(requests_of(intents), outcome, execution_tx)
                && next == (Trader { execution_tx, ..self }).spec_settled(outcome)
    }

    /// Whether `next` can follow from placing `intents` with `defects` passed
    /// over: the intents are dispatched, and the fate of the batch is acted on.
    pub open spec fn places_reporting(
        self,
        intents: Seq<OrderIntent>,
        next: Engine<Strategy, Portfolio>,
        defects: Seq<Defect>,
    ) -> bool {
        exists|outcome: Dispatch, execution_tx: ExecutionTx|
            #[trigger] self.execution_tx.dispatches(intents, outcome, defects, execution_tx)
                && next == (Trader { execution_tx, ..self }).spec_settled(outcome)
    }

    /// Placing with a report is placing: what is passed over makes no
    /// difference to what follows.
    pub proof fn lemma_places_reporting_places(
        self,
        intents: Seq<OrderIntent>,
        next: Engine<Strategy, Portfolio>,
        defects: Seq<Defect>,
    )
        requires
            self.places_reporting(intents, next, defects),
        ensures
            self.places(intents, next),
    {
        let (outcome, execution_tx) = choose|outcome: Dispatch, execution_tx: ExecutionTx|
            #[trigger] self.execution_tx.dispatches(intents, outcome, defects, execution_tx)
                && next == (Trader { execution_tx, ..self }).spec_settled(outcome);
        self.execution_tx.lemma_dispatches_transmits(intents, outcome, defects, execution_tx);
    }

    /// Packages the intents, sends the requests in the order of the intents,
    /// and acts on the fate of the batch. Returns, beside the successor, the
    /// defects of the intents that could not be packaged.
    pub fn place_reporting(self, intents: Vec<OrderIntent>) -> (step: (
        Engine<Strategy, Portfolio>,
        Vec<Defect>,
    ))
        ensures
            self.places_reporting(intents@, step.0, step.1@),
            self.places(intents@, step.0),
    {
        let mut trader = self;
        let (outcome, defects) = trader.execution_tx.dispatch(intents);
        (trader.settled(outcome), defects)
    }

    /// Packages the intents, sends the requests in the order of the intents,
    /// and acts on the fate of the batch.
    pub fn place(self, intents: Vec<OrderIntent>) -> (next: Engine<Strategy, Portfolio>)
        ensures
            self.places(intents@, next),
    {
        self.place_reporting(intents).0
    }
}

impl<Strategy, Portfolio> Trader<
    Strategy,
    GenerateOrder<Portfolio, Algorithmic<<Portfolio as MarketUpdater>::Signal>>,
> where Portfolio: MarketUpdater + AccountUpdater, Strategy: OrderGenerator<Portfolio> {
    /// Whether `next` can follow from asking the strategy: shown the portfolio,
    /// the market event and the signal, the strategy names some intents, which
    /// may change it, and they are placed.
    pub open spec fn generates(self, next: Engine<Strategy, Portfolio>) -> bool {
        exists|strategy: Strategy, intents: Seq<OrderIntent>|
            self.strategy.may_generate_orders(
                &self.state.portfolio,
                &self.state.origin.market,
                &self.state.origin.signal,
                strategy,
                intents,
            ) && #[trigger] (Trader { strategy, ..self }).places(intents, next)
    }

    /// Whether `next` can follow from asking the strategy, with `defects`
    /// passed over among the intents it named.
    pub open spec fn generates_reporting(
        self,
        next: Engine<Strategy, Portfolio>,
        defects: Seq<Defect>,
    ) -> bool {
        exists|strategy: Strategy, intents: Seq<OrderIntent>|
            self.strategy.may_generate_orders(
                &self.state.portfolio,
                &self.state.origin.market,
                &self.state.origin.signal,
                strategy,
                intents,
            ) && #[trigger] (Trader { strategy, ..self }).places_reporting(intents, next, defects)
    }

    /// Asks the strategy what to trade on the signal at hand and places the
    /// orders it names. Returns, beside the successor, the defects of the
    /// intents that could not be packaged.
    pub fn generate_reporting(self) -> (step: (Engine<Strategy, Portfolio>, Vec<Defect>))
        ensures
            self.generates_reporting(step.0, step.1@),
            self.generates(step.0),
    {
        let mut trader = self;
        let intents = trader.strategy.generate_orders(
            &trader.state.portfolio,
            &trader.state.origin.market,
            &trader.state.origin.signal,
        );
        trader.place_reporting(intents)
    }

    /// Asks the strategy what to trade on the signal at hand and places the
    /// orders it names.
    pub fn generate(self) -> (next: Engine<Strategy, Portfolio>)
        ensures
            self.generates(next),
    {
        self.generate_reporting().0
    }
}

impl<Strategy, Portfolio> Trader<Strategy, GenerateOrder<Portfolio, Manual>> where
    Portfolio: MarketUpdater + AccountUpdater,
 {
    /// Places the orders that the operator asked for. Returns, beside the
    /// successor, the defects of the intents that could not be packaged.
    pub fn generate_reporting(self, intents: Vec<OrderIntent>) -> (step: (
        Engine<Strategy, Portfolio>,
        Vec<Defect>,
    ))
        ensures
            self.places_reporting(intents@, step.0, step.1@),
            self.places(intents@, step.0),
    {
        self.place_reporting(intents)
    }

    /// Places the orders that the operator asked for.
    pub fn generate(self, intents: Vec<OrderIntent>) -> (next: Engine<Strategy, Portfolio>)
        ensures
            self.places(intents@, next),
    {
        self.place(intents)
    }
}

} // verus!
