//! What holds of every transition, and so of every session.
//!
//! The laws are stated over [`Engine::steps_to`], the relation that
//! [`Engine::next`] promises between an engine and its successor, and over
//! [`Engine::reaches`], its iteration.

use crate::engine::{Engine, Trader};
use crate::event::{Command, Event};
use crate::execution::{
    all_well_formed, defects_of, lemma_defects_of, lemma_requests_of_well_formed, packaged,
    requests_of, Defect, Dispatch, ExecutionTx, OrderIntent,
};
use crate::portfolio::{AccountUpdater, Initialiser, MarketUpdater, PortfolioError};
use crate::strategy::OrderGenerator;
use vstd::prelude::*;

verus! {

impl<Strategy, Portfolio> Engine<Strategy, Portfolio> where
    Portfolio: Initialiser<Output = Portfolio> + MarketUpdater + AccountUpdater,
    Strategy: OrderGenerator<Portfolio>,
 {
    /// A transition leads to a phase that the transition table permits, unless
    /// it ends the session in failure or makes no headway.
    ///
    /// Only two things fail a session: a portfolio that cannot be built, which
    /// takes `Initialise` to `Terminate`, and an execution channel that has
    /// lost its consumer, which takes either order-placing phase (and
    /// `ExecuteCommand`, for which the table lists `Terminate` anyway) to
    /// `Terminate`. Only one thing makes no headway: a pull on a feed that
    /// stayed empty for as long as it had patience, which leaves the engine
    /// waiting in `Consume`.
    pub proof fn lemma_step_is_legal(self, next: Self)
        requires
            self.steps_to(next),
        ensures
            self.spec_phase().spec_permits(next.spec_phase()) || next.failed() || self.waits(next),
            !(self is Initialise || self is Consume || self is GenerateOrder
                || self is GenerateOrderManual) ==> self.spec_phase().spec_permits(
                next.spec_phase(),
            ),
            self is Initialise ==> next is Consume || (next matches Engine::Terminate(trader)
                && trader.state.cause is InitialisationFailed),
            self is Consume ==> self.spec_phase().spec_permits(next.spec_phase()) || self.waits(
                next,
            ),
            self is GenerateOrder || self is GenerateOrderManual ==> next is Consume || (
            next matches Engine::Terminate(trader) && trader.state.cause
                is ExecutionChannelClosed),
    {
    }

    /// Initialisation happens once: no transition leads to `Initialise`, so a
    /// session that has made a transition is never in its first phase again.
    pub proof fn lemma_initialise_runs_once(self, end: Self, n: nat)
        requires
            self.reaches(end, n),
            n > 0,
        ensures
            !(end is Initialise),
    {
        let before = choose|before: Self|
            self.reaches(before, (n - 1) as nat) && #[trigger] before.steps_to(end);
        before.lemma_step_is_legal(end);
    }

    /// Termination is final: the only successor of a terminated engine is that
    /// engine itself.
    pub proof fn lemma_terminated_is_fixed(self, next: Self)
        requires
            self is Terminate,
            self.steps_to(next),
        ensures
            next == self,
    {
    }

    /// However long a session goes on after it has terminated, it stays as it
    /// was.
    pub proof fn lemma_terminated_stays_fixed(self, end: Self, n: nat)
        requires
            self is Terminate,
            self.reaches(end, n),
        ensures
            end == self,
        decreases n,
    {
        if n > 0 {
            let before = choose|before: Self|
                self.reaches(before, (n - 1) as nat) && #[trigger] before.steps_to(end);
            self.lemma_terminated_stays_fixed(before, (n - 1) as nat);
        }
    }

    /// A transition only ever appends to what was consumed and to what was
    /// sent, and it keeps the sender.
    ///
    /// Only `Consume` touches the feed, and it consumes at most one event: the
    /// one that its successor carries. Only the order-placing phases and
    /// `ExecuteCommand` send; every other phase leaves the channel handle as it
    /// was. Only `GenerateOrder` lets the strategy change.
    pub proof fn lemma_step_appends(self, next: Self)
        requires
            self.steps_to(next),
        ensures
            self.consumed().is_prefix_of(next.consumed()),
            self.sent().is_prefix_of(next.sent()),
            next.execution_tx().sender() == self.execution_tx().sender(),
            !(self is Consume) ==> next.feed() == self.feed(),
            self is Consume ==> match next {
                Engine::UpdateFromMarket((_, market)) => next.consumed() == self.consumed().push(
                    Event::Market(market),
                ),
                Engine::UpdateFromAccount((_, account)) => next.consumed()
                    == self.consumed().push(Event::Account(account)),
                Engine::ExecuteCommand((_, command)) => next.consumed() == self.consumed().push(
                    Event::Command(command),
                ),
                _ => next.consumed() == self.consumed(),
            },
            !(self is GenerateOrder || self is GenerateOrderManual || self is ExecuteCommand)
                ==> next.execution_tx() == self.execution_tx(),
            !(self is GenerateOrder) ==> next.strategy() == self.strategy(),
    {
    }

    /// The engine sends nothing that is not well formed: if all that was sent
    /// before a transition is well formed, so is all that was sent after it.
    /// In particular no order is ever opened from an invalid intent.
    pub proof fn lemma_step_sends_only_well_formed(self, next: Self)
        requires
            self.steps_to(next),
            all_well_formed(self.sent()),
        ensures
            all_well_formed(next.sent()),
    {
        match self {
            Engine::GenerateOrder(trader) => {
                let (strategy, intents) = choose|strategy: Strategy, intents: Seq<OrderIntent>|
                    trader.strategy.may_generate_orders(
                        &trader.state.portfolio,
                        &trader.state.origin.market,
                        &trader.state.origin.signal,
                        strategy,
                        intents,
                    ) && #[trigger] (Trader { strategy, ..trader }).places(intents, next);
                lemma_requests_of_well_formed(intents);
            },
            Engine::GenerateOrderManual((_, intents)) => {
                lemma_requests_of_well_formed(intents@);
            },
            _ => {},
        }
    }

    /// The portfolio changes only where it is built or updated: in every other
    /// phase the successor, if it has a portfolio at all, has the same one.
    pub proof fn lemma_portfolio_changes_only_by_update(self, next: Self)
        requires
            self.steps_to(next),
            !(self is Initialise || self is UpdateFromMarket || self is UpdateFromAccount),
        ensures
            next.portfolio() is Some ==> next.portfolio() == self.portfolio(),
    {
    }

    /// A transition that reports is a transition: what `step` does to the
    /// engine is what `next` does.
    pub proof fn lemma_reporting_step_is_a_step(
        self,
        next: Self,
        rejection: Option<PortfolioError>,
        defects: Seq<Defect>,
    )
        requires
            self.steps_reporting(next, rejection, defects),
        ensures
            self.steps_to(next),
    {
        match self {
            Engine::GenerateOrder(trader) => {
                let (strategy, intents) = choose|strategy: Strategy, intents: Seq<OrderIntent>|
                    trader.strategy.may_generate_orders(
                        &trader.state.portfolio,
                        &trader.state.origin.market,
                        &trader.state.origin.signal,
                        strategy,
                        intents,
                    ) && #[trigger] (Trader { strategy, ..trader }).places_reporting(
                        intents,
                        next,
                        defects,
                    );
                (Trader { strategy, ..trader }).lemma_places_reporting_places(
                    intents,
                    next,
                    defects,
                );
            },
            Engine::GenerateOrderManual((trader, intents)) => {
                trader.lemma_places_reporting_places(intents@, next, defects);
            },
            _ => {},
        }
    }

    /// An event that the portfolio rejects changes nothing but the phase: the
    /// engine is back at the feed with the portfolio, the strategy and the
    /// channel handle it had, and nothing was sent. Only the two phases that
    /// offer an event to the portfolio can report a rejection.
    pub proof fn lemma_rejected_event_changes_nothing(
        self,
        next: Self,
        rejection: Option<PortfolioError>,
        defects: Seq<Defect>,
    )
        requires
            self.steps_reporting(next, rejection, defects),
            rejection is Some,
        ensures
            self is UpdateFromMarket || self is UpdateFromAccount,
            next is Consume,
            next.portfolio() == self.portfolio(),
            next.strategy() == self.strategy(),
            next.execution_tx() == self.execution_tx(),
            next.feed() == self.feed(),
            defects.len() == 0,
    {
    }

    /// The defects that a transition reports are those of the intents it was
    /// to place: each names an intent of the batch and what is wrong with it.
    /// If the batch went through, every intent of it was either sent or
    /// reported.
    pub proof fn lemma_reported_defects_are_of_the_batch(
        self,
        next: Self,
        rejection: Option<PortfolioError>,
        defects: Seq<Defect>,
    )
        requires
            self.steps_reporting(next, rejection, defects),
            self is GenerateOrderManual,
        ensures
            forall|k: int|
                0 <= k < defects.len() ==> {
                    let found = #[trigger] defects[k];
                    found.index < self->GenerateOrderManual_0.1@.len()
                        && self->GenerateOrderManual_0.1@[found.index as int].defect() == Some(
                        found.error,
                    )
                },
            next is Consume ==> defects == defects_of(self->GenerateOrderManual_0.1@) && next.sent()
                == self.sent() + requests_of(self->GenerateOrderManual_0.1@),
    {
        let batch = self->GenerateOrderManual_0.1;
        let intents = batch@;
        assert(intents.len() == batch.len());
        lemma_defects_of(intents);
        if !(next is Consume) {
            let trader = self->GenerateOrderManual_0.0;
            let (outcome, execution_tx) = choose|outcome: Dispatch, execution_tx: ExecutionTx|
                #[trigger] trader.execution_tx.dispatches(intents, outcome, defects, execution_tx)
                    && next == (Trader { execution_tx, ..trader }).spec_settled(outcome);
            let refused = outcome->ChannelClosed_0;
            let i = choose|i: int|
                0 <= i < intents.len() && packaged(#[trigger] intents[i]) == Some(refused)
                    && execution_tx@ == trader.execution_tx@ + requests_of(intents.take(i))
                    && defects == defects_of(intents.take(i));
            lemma_defects_of(intents.take(i));
        }
    }

    /// Whether the engine is handling the event that was consumed last.
    ///
    /// Where a phase handles an event, that event, or for the order-placing
    /// phases the event that led there, is the last that the feed yielded. The
    /// other phases handle none.
    pub open spec fn handles_last_consumed(self) -> bool {
        let handled = match self {
            Engine::UpdateFromMarket((_, market)) => Some(Event::Market(market)),
            Engine::GenerateOrder(trader) => Some(Event::Market(trader.state.origin.market)),
            Engine::UpdateFromAccount((_, account)) => Some(Event::Account(account)),
            Engine::ExecuteCommand((_, command)) => Some(Event::Command(command)),
            Engine::GenerateOrderManual((_, intents)) => Some(
                Event::Command(Command::ManualOrder(intents)),
            ),
            _ => None,
        };
        handled matches Some(event) ==> self.consumed().len() > 0 && self.consumed().last()
            == event
    }

    /// No event is handled twice, and none but the latest: an engine that is
    /// handling the event consumed last steps to one that does so too. An
    /// engine in its first phase is such an engine.
    pub proof fn lemma_step_handles_last_consumed(self, next: Self)
        requires
            self.steps_to(next),
            self.handles_last_consumed(),
        ensures
            next.handles_last_consumed(),
    {
    }

    /// Requests are sent only for an event, and for the latest: a transition
    /// that sends anything consumes nothing, and is made while handling the
    /// event consumed last. With `lemma_session_keeps_order` this puts the
    /// requests in the order of the events that prompted them.
    pub proof fn lemma_step_sends_for_last_consumed(self, next: Self)
        requires
            self.steps_to(next),
            self.handles_last_consumed(),
        ensures
            next.sent() != self.sent() ==> {
                &&& self is GenerateOrder || self is GenerateOrderManual || self is ExecuteCommand
                &&& next.consumed() == self.consumed()
                &&& self.consumed().len() > 0
            },
    {
    }

    /// Throughout a session that began with its first phase, or at the feed,
    /// the event being handled is the one consumed last.
    pub proof fn lemma_session_handles_last_consumed(self, end: Self, n: nat)
        requires
            self.reaches(end, n),
            self.handles_last_consumed(),
        ensures
            end.handles_last_consumed(),
        decreases n,
    {
        if n > 0 {
            let before = choose|before: Self|
                self.reaches(before, (n - 1) as nat) && #[trigger] before.steps_to(end);
            self.lemma_session_handles_last_consumed(before, (n - 1) as nat);
            before.lemma_step_handles_last_consumed(end);
        }
    }

    /// Every phase but `Consume` brings the session closer to the feed or to
    /// its end: after a pull the engine is back at the feed, or has
    /// terminated, within two transitions. It never lingers over an event.
    pub proof fn lemma_step_nears_the_feed(self, next: Self)
        requires
            self.steps_to(next),
            !(self is Consume),
            !(self is Terminate),
        ensures
            next.spec_phase().distance_to_feed() < self.spec_phase().distance_to_feed(),
    {
    }

    /// A pull does one of three things: it consumes one event and goes to
    /// handle it, or it finds the feed closed and ends the session in good
    /// order, or it finds nothing and leaves the engine waiting. It never
    /// fails the session and never sends.
    pub proof fn lemma_pull_consumes_ends_or_waits(self, next: Self)
        requires
            self is Consume,
            self.steps_to(next),
        ensures
            (next.consumed().len() == self.consumed().len() + 1 && (next is UpdateFromMarket
                || next is UpdateFromAccount || next is ExecuteCommand)) || (next.consumed()
                == self.consumed() && next.ended_by_closed_feed()) || self.waits(next),
            !next.failed(),
            next.execution_tx() == self.execution_tx(),
            next.strategy() == self.strategy(),
            !(next is Terminate) ==> next.portfolio() == self.portfolio(),
    {
    }

    /// A session as `run` makes it is a session.
    pub proof fn lemma_runs_reaches(self, end: Self, n: nat, pulls: nat)
        requires
            self.runs(end, n, pulls),
        ensures
            self.reaches(end, n),
            pulls <= n,
        decreases n,
    {
        if n > 0 {
            let before = choose|before: Self|
                {
                    &&& !before.spec_is_terminated()
                    &&& #[trigger] before.steps_to(end)
                    &&& if before is Consume {
                        pulls > 0 && self.runs(before, (n - 1) as nat, (pulls - 1) as nat)
                    } else {
                        self.runs(before, (n - 1) as nat, pulls)
                    }
                };
            if before is Consume {
                self.lemma_runs_reaches(before, (n - 1) as nat, (pulls - 1) as nat);
            } else {
                self.lemma_runs_reaches(before, (n - 1) as nat, pulls);
            }
        }
    }

    /// A session is no longer than its pulls allow: each pull is followed by
    /// at most two transitions before the next, and initialisation is one
    /// more. So a session on a feed that yields `k` events without a pause and
    /// is then closed, which takes `k + 1` pulls, is over within `3 * (k + 1)`
    /// transitions after its initialisation.
    pub proof fn lemma_session_is_as_long_as_its_pulls(self, end: Self, n: nat, pulls: nat)
        requires
            self.runs(end, n, pulls),
        ensures
            n + end.spec_phase().distance_to_feed() <= 3 * pulls
                + self.spec_phase().distance_to_feed(),
        decreases n,
    {
        if n > 0 {
            let before = choose|before: Self|
                {
                    &&& !before.spec_is_terminated()
                    &&& #[trigger] before.steps_to(end)
                    &&& if before is Consume {
                        pulls > 0 && self.runs(before, (n - 1) as nat, (pulls - 1) as nat)
                    } else {
                        self.runs(before, (n - 1) as nat, pulls)
                    }
                };
            if before is Consume {
                self.lemma_session_is_as_long_as_its_pulls(
                    before,
                    (n - 1) as nat,
                    (pulls - 1) as nat,
                );
            } else {
                self.lemma_session_is_as_long_as_its_pulls(before, (n - 1) as nat, pulls);
                before.lemma_step_nears_the_feed(end);
            }
        }
    }

    /// A rejected event leaves no mark on the session. Take an engine at the
    /// feed that pulls an event, offers it to the portfolio and has it
    /// rejected. It is then back at the feed, not terminated, with the very
    /// portfolio, strategy and channel handle it had before the event, and has
    /// sent nothing. Whatever it pulls next is offered to that same portfolio.
    pub proof fn lemma_session_survives_a_rejected_event(
        self,
        offered: Self,
        back: Self,
        later: Self,
        rejection: Option<PortfolioError>,
        defects: Seq<Defect>,
    )
        requires
            self is Consume,
            self.steps_to(offered),
            offered is UpdateFromMarket || offered is UpdateFromAccount,
            offered.steps_reporting(back, rejection, defects),
            rejection is Some,
            back.steps_to(later),
        ensures
            back is Consume,
            back.portfolio() == self.portfolio(),
            back.strategy() == self.strategy(),
            back.execution_tx() == self.execution_tx(),
            back.consumed().len() == self.consumed().len() + 1,
            !(later is Terminate) ==> later.portfolio() == self.portfolio(),
            later.sent() == self.sent(),
            !later.failed(),
    {
    }

    /// A refusal by the execution channel ends the session there and then.
    /// The transition that met it consumed nothing, and however long the
    /// session is run on, nothing more is pulled from the feed, nothing is
    /// offered to the portfolio or the strategy, and nothing is sent: what is
    /// left in the feed stays there.
    pub proof fn lemma_refusal_ends_the_session(self, next: Self, end: Self, n: nat)
        requires
            self.steps_to(next),
            next matches Engine::Terminate(trader) && trader.state.cause is ExecutionChannelClosed,
            !(self is Terminate),
            next.reaches(end, n),
        ensures
            self is GenerateOrder || self is GenerateOrderManual || self is ExecuteCommand,
            self.sent().is_prefix_of(next.sent()),
            next.feed() == self.feed(),
            end == next,
            end.consumed() == self.consumed(),
            forall|further: Self, m: nat, pulls: nat| #[trigger]
                next.runs(further, m, pulls) ==> m == 0 && further == next,
    {
        next.lemma_terminated_stays_fixed(end, n);
        assert forall|further: Self, m: nat, pulls: nat| #[trigger]
            next.runs(further, m, pulls) implies m == 0 && further == next by {
            next.lemma_terminated_never_runs(further, m, pulls);
        }
    }

    /// `run` makes no transition from a terminated engine.
    pub proof fn lemma_terminated_never_runs(self, end: Self, n: nat, pulls: nat)
        requires
            self is Terminate,
            self.runs(end, n, pulls),
        ensures
            n == 0,
            end == self,
        decreases n,
    {
        if n > 0 {
            let before = choose|before: Self|
                {
                    &&& !before.spec_is_terminated()
                    &&& #[trigger] before.steps_to(end)
                    &&& if before is Consume {
                        pulls > 0 && self.runs(before, (n - 1) as nat, (pulls - 1) as nat)
                    } else {
                        self.runs(before, (n - 1) as nat, pulls)
                    }
                };
            if before is Consume {
                self.lemma_terminated_never_runs(before, (n - 1) as nat, (pulls - 1) as nat);
            } else {
                self.lemma_terminated_never_runs(before, (n - 1) as nat, pulls);
            }
        }
    }

    /// Sessions compose: a session of `n` transitions followed by one of `m`
    /// is a session of `n + m`. So running an engine in several stretches is
    /// running it once.
    pub proof fn lemma_sessions_compose(self, middle: Self, end: Self, n: nat, m: nat)
        requires
            self.reaches(middle, n),
            middle.reaches(end, m),
        ensures
            self.reaches(end, n + m),
        decreases m,
    {
        if m > 0 {
            let before = choose|before: Self|
                middle.reaches(before, (m - 1) as nat) && #[trigger] before.steps_to(end);
            self.lemma_sessions_compose(middle, before, n, (m - 1) as nat);
        }
    }

    /// A session never reorders: whatever was consumed and sent by some point
    /// is the beginning of what has been consumed and sent at any later point,
    /// so the requests prompted by an event precede those prompted by any
    /// later event. Nor does it batch: `n` transitions consume at most `n`
    /// events.
    pub proof fn lemma_session_keeps_order(self, end: Self, n: nat)
        requires
            self.reaches(end, n),
        ensures
            self.consumed().is_prefix_of(end.consumed()),
            self.sent().is_prefix_of(end.sent()),
            end.consumed().len() <= self.consumed().len() + n,
            end.execution_tx().sender() == self.execution_tx().sender(),
        decreases n,
    {
        if n > 0 {
            let before = choose|before: Self|
                self.reaches(before, (n - 1) as nat) && #[trigger] before.steps_to(end);
            self.lemma_session_keeps_order(before, (n - 1) as nat);
            before.lemma_step_appends(end);
        }
    }

    /// A session that starts with nothing ill formed sent never sends anything
    /// ill formed.
    pub proof fn lemma_session_sends_only_well_formed(self, end: Self, n: nat)
        requires
            self.reaches(end, n),
            all_well_formed(self.sent()),
        ensures
            all_well_formed(end.sent()),
        decreases n,
    {
        if n > 0 {
            let before = choose|before: Self|
                self.reaches(before, (n - 1) as nat) && #[trigger] before.steps_to(end);
            self.lemma_session_sends_only_well_formed(before, (n - 1) as nat);
            before.lemma_step_sends_only_well_formed(end);
        }
    }
}

} // verus!
