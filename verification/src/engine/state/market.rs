//! UpdateFromMarket: apply a market event to the portfolio.

use crate::engine::state::consume::Consume;
use crate::engine::state::order::{Algorithmic, GenerateOrder};
use crate::engine::{Engine, Trader};
use crate::portfolio::{rejection_of, AccountUpdater, MarketUpdater, PortfolioError};
use barter_data::model::MarketEvent;
use vstd::prelude::*;

verus! {

/// Payload of the phase that applies a market event: the live portfolio. The
/// event travels beside the trader.
pub struct UpdateFromMarket<Portfolio> {
    pub portfolio: Portfolio,
}

impl<Strategy, Portfolio> Trader<Strategy, UpdateFromMarket<Portfolio>> where
    Portfolio: MarketUpdater + AccountUpdater,
 {
    /// Where the portfolio's answer to a market event leads.
    ///
    /// An updated portfolio is adopted. If it comes with a signal, the strategy
    /// is asked for orders next, with the event at hand; if not, the trader
    /// goes back to the feed. An error leaves the trader with the portfolio it
    /// had, back at the feed.
    pub open spec fn spec_updated(
        self,
        market: MarketEvent,
        outcome: Result<(Portfolio, Option<Portfolio::Signal>), PortfolioError>,
    ) -> Engine<Strategy, Portfolio> {
        match outcome {
            Ok((portfolio, Some(signal))) => Engine::GenerateOrder(
                self.moved_to(GenerateOrder { portfolio, origin: Algorithmic { market, signal } }),
            ),
            Ok((portfolio, None)) => Engine::Consume(self.moved_to(Consume { portfolio })),
            Err(_) => Engine::Consume(self.moved_to(Consume { portfolio: self.state.portfolio })),
        }
    }

    /// Acts on the portfolio's answer to a market event.
    #[verifier::when_used_as_spec(spec_updated)]
    pub fn updated(
        self,
        market: MarketEvent,
        outcome: Result<(Portfolio, Option<Portfolio::Signal>), PortfolioError>,
    ) -> (next: Engine<Strategy, Portfolio>)
        ensures
            next == self.spec_updated(market, outcome),
            outcome is Err ==> next == Engine::<Strategy, Portfolio>::Consume(
                self.moved_to(Consume { portfolio: self.state.portfolio }),
            ),
    {
        let Trader { feed, strategy, execution_tx, state } = self;
        match outcome {
            Ok((portfolio, Some(signal))) => Engine::GenerateOrder(
                Trader {
                    feed,
                    strategy,
                    execution_tx,
                    state: GenerateOrder { portfolio, origin: Algorithmic { market, signal } },
                },
            ),
            Ok((portfolio, None)) => Engine::Consume(
                Trader { feed, strategy, execution_tx, state: Consume { portfolio } },
            ),
            Err(_) => Engine::Consume(
                Trader { feed, strategy, execution_tx, state: Consume { portfolio: state.portfolio } },
            ),
        }
    }

    /// Whether `next` can follow from applying `market`: it is what some answer
    /// of the portfolio to that event leads to.
    pub open spec fn applies(self, market: MarketEvent, next: Engine<Strategy, Portfolio>) -> bool {
        exists|outcome: Result<(Portfolio, Option<Portfolio::Signal>), PortfolioError>|
            self.state.portfolio.may_update_from_market(&market, outcome) && next
                == #[trigger] self.spec_updated(market, outcome)
    }

    /// Whether `next` can follow from applying `market`, with `rejection` the
    /// error that the portfolio answered with, if it did.
    pub open spec fn applies_reporting(
        self,
        market: MarketEvent,
        next: Engine<Strategy, Portfolio>,
        rejection: Option<PortfolioError>,
    ) -> bool {
        exists|outcome: Result<(Portfolio, Option<Portfolio::Signal>), PortfolioError>|
            self.state.portfolio.may_update_from_market(&market, outcome) && next
                == #[trigger] self.spec_updated(market, outcome) && rejection == rejection_of(
                outcome,
            )
    }

    /// Offers the market event to the portfolio and acts on its answer.
    /// Returns, beside the successor, the error with which the portfolio
    /// rejected the event, if it did.
    pub fn update_reporting(self, market: MarketEvent) -> (step: (
        Engine<Strategy, Portfolio>,
        Option<PortfolioError>,
    ))
        ensures
            self.applies_reporting(market, step.0, step.1),
            self.applies(market, step.0),
            step.1 is Some ==> step.0 == Engine::<Strategy, Portfolio>::Consume(
                self.moved_to(Consume { portfolio: self.state.portfolio }),
            ),
    {
        let outcome = self.state.portfolio.update_from_market(&market);
        let rejection = match &outcome {
            Ok(_) => None,
            Err(error) => Some(*error),
        };
        (self.updated(market, outcome), rejection)
    }

    /// Offers the market event to the portfolio and acts on its answer.
    pub fn update(self, market: MarketEvent) -> (next: Engine<Strategy, Portfolio>)
        ensures
            self.applies(market, next),
    {
        self.update_reporting(market).0
    }
}

} // verus!
