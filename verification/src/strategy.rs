//! The capability that a trading strategy lends to the engine.

use crate::execution::OrderIntent;
use crate::portfolio::MarketUpdater;
use barter_data::model::MarketEvent;
use vstd::prelude::*;

verus! {

/// Decides what to trade when the portfolio signals an opportunity.
pub trait OrderGenerator<Portfolio: MarketUpdater>: Sized {
    /// Whether this strategy, shown `portfolio`, `market` and `signal`, may
    /// name `intents` and be left as `after`.
    ///
    /// Anything may, unless an implementation says more.
    open spec fn may_generate_orders(
        &self,
        portfolio: &Portfolio,
        market: &MarketEvent,
        signal: &Portfolio::Signal,
        after: Self,
        intents: Seq<OrderIntent>,
    ) -> bool {
        true
    }

    /// The orders to place, in the order in which they are to be sent, given
    /// the portfolio as it stands after `market` and the signal it raised.
    fn generate_orders(
        &mut self,
        portfolio: &Portfolio,
        market: &MarketEvent,
        signal: &Portfolio::Signal,
    ) -> (intents: Vec<OrderIntent>)
        ensures
            old(self).may_generate_orders(portfolio, market, signal, *final(self), intents@),
    ;
}

} // verus!
