//! The capabilities that a portfolio lends to the engine.
//!
//! The engine never looks inside a portfolio. It builds one from the instrument
//! universe, offers it each market and account event, and keeps whatever
//! portfolio comes back. An update never touches the portfolio it is applied
//! to: it answers with the portfolio as it should be from now on, or with an
//! error, in which case the engine simply goes on with the one it has.
//!
//! Each capability comes with a relation, named `may_` and the name of its
//! method, between what the method is given and what it may answer. As it
//! stands the relation admits every answer, so an implementation owes nothing.
//! One that states its own relation has to prove that its method keeps to it,
//! and the engine's contracts then speak of that relation.

use barter_data::model::MarketEvent;
use barter_execution::model::AccountEvent;
use barter_integration::model::{Exchange, Instrument};
use std::collections::HashMap;
use vstd::prelude::*;

verus! {

/// Why a portfolio could not do what it was asked.
#[derive(Clone, Copy, Debug, PartialEq, Eq, Structural)]
pub enum PortfolioError {
    /// The instrument universe names an exchange the portfolio cannot serve.
    UnknownExchange,
    /// The instrument universe lists an instrument twice.
    DuplicateInstrument,
    /// An event could not be made sense of.
    MalformedEvent,
}

/// The error in an answer of the portfolio, if the answer is an error.
pub open spec fn rejection_of<T>(outcome: Result<T, PortfolioError>) -> Option<PortfolioError> {
    match outcome {
        Ok(_) => None,
        Err(error) => Some(error),
    }
}

/// Builds a portfolio from the instrument universe.
pub trait Initialiser {
    type Output;

    /// Whether building a portfolio for `instruments` may end in `outcome`.
    ///
    /// Any outcome may, unless an implementation says more.
    open spec fn may_init(
        instruments: HashMap<Exchange, Vec<Instrument>>,
        outcome: Result<Self::Output, PortfolioError>,
    ) -> bool {
        true
    }

    /// The portfolio for the instruments listed under each exchange.
    fn init(instruments: &HashMap<Exchange, Vec<Instrument>>) -> (outcome: Result<
        Self::Output,
        PortfolioError,
    >)
        ensures
            Self::may_init(*instruments, outcome),
    ;
}

/// Brings a portfolio up to date with the market.
pub trait MarketUpdater: Sized {
    /// What the portfolio tells the strategy when it sees an opportunity.
    type Signal;

    /// Whether this portfolio may answer `market` with `outcome`.
    ///
    /// Any outcome may, unless an implementation says more.
    open spec fn may_update_from_market(
        &self,
        market: &MarketEvent,
        outcome: Result<(Self, Option<Self::Signal>), PortfolioError>,
    ) -> bool {
        true
    }

    /// The portfolio after `market`, and a signal if the event calls for a
    /// trading decision.
    fn update_from_market(&self, market: &MarketEvent) -> (outcome: Result<
        (Self, Option<Self::Signal>),
        PortfolioError,
    >)
        ensures
            self.may_update_from_market(market, outcome),
    ;
}

/// Reconciles a portfolio with feedback from the execution venue.
pub trait AccountUpdater: Sized {
    /// Whether this portfolio may answer `account` with `outcome`.
    ///
    /// Any outcome may, unless an implementation says more.
    open spec fn may_update_from_account(
        &self,
        account: &AccountEvent,
        outcome: Result<Self, PortfolioError>,
    ) -> bool {
        true
    }

    /// The portfolio after `account`.
    fn update_from_account(&self, account: &AccountEvent) -> (outcome: Result<
        Self,
        PortfolioError,
    >)
        ensures
            self.may_update_from_account(account, outcome),
    ;
}

} // verus!
