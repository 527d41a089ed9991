//! Consume: pull one item from the feed and route it.

use crate::engine::state::account::UpdateFromAccount;
use crate::engine::state::command::ExecuteCommand;
use crate::engine::state::market::UpdateFromMarket;
use crate::engine::state::terminate::{Cause, Terminate};
use crate::engine::{Engine, Trader};
use crate::event::{Event, EventFeed, Feed};
use crate::portfolio::{AccountUpdater, MarketUpdater};
use vstd::prelude::*;

verus! {

/// Payload of the phase that waits for the feed: the live portfolio.
pub struct Consume<Portfolio> {
    pub portfolio: Portfolio,
}

impl<Strategy, Portfolio> Trader<Strategy, Consume<Portfolio>> where
    Portfolio: MarketUpdater + AccountUpdater,
 {
    /// Where an item of the feed leads: each kind of event to the phase that
    /// handles it, carrying the event, and the end of the feed to `Terminate`.
    /// An idle feed leads nowhere: the trader goes on waiting. The portfolio
    /// goes along untouched.
    pub open spec fn spec_route(self, item: Feed) -> Engine<Strategy, Portfolio> {
        match item {
            Feed::Next(Event::Market(market)) => Engine::UpdateFromMarket(
                (self.moved_to(UpdateFromMarket { portfolio: self.state.portfolio }), market),
            ),
            Feed::Next(Event::Account(account)) => Engine::UpdateFromAccount(
                (self.moved_to(UpdateFromAccount { portfolio: self.state.portfolio }), account),
            ),
            Feed::Next(Event::Command(command)) => Engine::ExecuteCommand(
                (self.moved_to(ExecuteCommand { portfolio: self.state.portfolio }), command),
            ),
            Feed::Idle => Engine::Consume(self),
            Feed::Finished => Engine::Terminate(
                self.moved_to(Terminate { cause: Cause::FeedClosed }),
            ),
        }
    }

    /// Routes an item that was pulled from the feed.
    #[verifier::when_used_as_spec(spec_route)]
    pub fn route(self, item: Feed) -> (next: Engine<Strategy, Portfolio>)
        ensures
            next == self.spec_route(item),
    {
        let Trader { feed, strategy, execution_tx, state } = self;
        let portfolio = state.portfolio;
        match item {
            Feed::Next(Event::Market(market)) => Engine::UpdateFromMarket(
                (
                    Trader { feed, strategy, execution_tx, state: UpdateFromMarket { portfolio } },
                    market,
                ),
            ),
            Feed::Next(Event::Account(account)) => Engine::UpdateFromAccount(
                (
                    Trader { feed, strategy, execution_tx, state: UpdateFromAccount { portfolio } },
                    account,
                ),
            ),
            Feed::Next(Event::Command(command)) => Engine::ExecuteCommand(
                (
                    Trader { feed, strategy, execution_tx, state: ExecuteCommand { portfolio } },
                    command,
                ),
            ),
            Feed::Idle => Engine::Consume(
                Trader { feed, strategy, execution_tx, state: Consume { portfolio } },
            ),
            Feed::Finished => Engine::Terminate(
                Trader { feed, strategy, execution_tx, state: Terminate { cause: Cause::FeedClosed } },
            ),
        }
    }

    /// Whether `next` can follow from this trader pulling on its feed: the
    /// feed yields one item, and that item is routed.
    pub open spec fn pulls(self, next: Engine<Strategy, Portfolio>) -> bool {
        exists|item: Feed, feed: EventFeed|
            #[trigger] self.feed.yields(item, feed) && next == (Trader { feed, ..self }).spec_route(
                item,
            )
    }

    /// Pulls exactly one item from the feed, waiting for it as long as the
    /// feed has patience, and routes it.
    pub fn next_event(self) -> (next: Engine<Strategy, Portfolio>)
        ensures
            self.pulls(next),
    {
        let mut trader = self;
        let item = trader.feed.next();
        trader.route(item)
    }
}

} // verus!
