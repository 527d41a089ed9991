//! UpdateFromAccount: reconcile the portfolio with an account event.

use crate::engine::state::consume::Consume;
use crate::engine::{Engine, Trader};
use crate::portfolio::{rejection_of, AccountUpdater, MarketUpdater, PortfolioError};
use barter_execution::model::AccountEvent;
use vstd::prelude::*;

verus! {

/// Payload of the phase that applies an account event: the live portfolio. The
/// event travels beside the trader.
pub struct UpdateFromAccount<Portfolio> {
    pub portfolio: Portfolio,
}

impl<Strategy, Portfolio> Trader<Strategy, UpdateFromAccount<Portfolio>> where
    Portfolio: MarketUpdater + AccountUpdater,
 {
    /// Where the portfolio's answer to an account event leads: back to the
    /// feed, with the reconciled portfolio, or after an error with the
    /// portfolio the trader had.
    pub open spec fn spec_updated(
        self,
        outcome: Result<Portfolio, PortfolioError>,
    ) -> Engine<Strategy, Portfolio> {
        match outcome {
            Ok(portfolio) => Engine::Consume(self.moved_to(Consume { portfolio })),
            Err(_) => Engine::Consume(self.moved_to(Consume { portfolio: self.state.portfolio })),
        }
    }

    /// Acts on the portfolio's answer to an account event.
    #[verifier::when_used_as_spec(spec_updated)]
    pub fn updated(self, outcome: Result<Portfolio, PortfolioError>) -> (next: Engine<
        Strategy,
        Portfolio,
    >)
        ensures
            next == self.spec_updated(outcome),
            outcome is Err ==> next == Engine::<Strategy, Portfolio>::Consume(
                self.moved_to(Consume { portfolio: self.state.portfolio }),
            ),
    {
        let Trader { feed, strategy, execution_tx, state } = self;
        match outcome {
            Ok(portfolio) => Engine::Consume(
                Trader { feed, strategy, execution_tx, state: Consume { portfolio } },
            ),
            Err(_) => Engine::Consume(
                Trader { feed, strategy, execution_tx, state: Consume { portfolio: state.portfolio } },
            ),
        }
    }

    /// Whether `next` can follow from applying `account`: it is what some
    /// answer of the portfolio to that event leads to.
    pub open spec fn applies(
        self,
        account: AccountEvent,
        next: Engine<Strategy, Portfolio>,
    ) -> bool {
        exists|outcome: Result<Portfolio, PortfolioError>|
            self.state.portfolio.may_update_from_account(&account, outcome) && next
                == #[trigger] self.spec_updated(outcome)
    }

    /// Whether `next` can follow from applying `account`, with `rejection` the
    /// error that the portfolio answered with, if it did.
    pub open spec fn applies_reporting(
        self,
        account: AccountEvent,
        next: Engine<Strategy, Portfolio>,
        rejection: Option<PortfolioError>,
    ) -> bool {
        exists|outcome: Result<Portfolio, PortfolioError>|
            self.state.portfolio.may_update_from_account(&account, outcome) && next
                == #[trigger] self.spec_updated(outcome) && rejection == rejection_of(outcome)
    }

    /// Offers the account event to the portfolio and acts on its answer.
    /// Returns, beside the successor, the error with which the portfolio
    /// rejected the event, if it did.
    pub fn update_reporting(self, account: AccountEvent) -> (step: (
        Engine<Strategy, Portfolio>,
        Option<PortfolioError>,
    ))
        ensures
            self.applies_reporting(account, step.0, step.1),
            self.applies(account, step.0),
            step.1 is Some ==> step.0 == Engine::<Strategy, Portfolio>::Consume(
                self.moved_to(Consume { portfolio: self.state.portfolio }),
            ),
    {
        let outcome = self.state.portfolio.update_from_account(&account);
        let rejection = match &outcome {
            Ok(_) => None,
            Err(error) => Some(*error),
        };
        (self.updated(outcome), rejection)
    }

    /// Offers the account event to the portfolio and acts on its answer.
    pub fn update(self, account: AccountEvent) -> (next: Engine<Strategy, Portfolio>)
        ensures
            self.applies(account, next),
    {
        self.update_reporting(account).0
    }
}

} // verus!
