//! ExecuteCommand: carry out an operator's command.

use crate::engine::state::consume::Consume;
use crate::engine::state::order::{GenerateOrder, Manual};
use crate::engine::state::terminate::{Cause, Terminate};
use crate::engine::{Engine, Trader};
use crate::event::Command;
use crate::execution::{Dispatch, ExecutionRequest, ExecutionTx};
use crate::portfolio::{AccountUpdater, MarketUpdater};
use vstd::prelude::*;

verus! {

/// Payload of the phase that carries out a command: the live portfolio. The
/// command travels beside the trader.
pub struct ExecuteCommand<Portfolio> {
    pub portfolio: Portfolio,
}

impl<Strategy, Portfolio> Trader<Strategy, ExecuteCommand<Portfolio>> where
    Portfolio: MarketUpdater + AccountUpdater,
 {
    /// Where the fate of a command's request leads: back to the feed once the
    /// channel has taken it, and to `Terminate` if it refused. The portfolio
    /// is the same either way.
    pub open spec fn spec_concluded(self, outcome: Dispatch) -> Engine<Strategy, Portfolio> {
        match outcome {
            Dispatch::Delivered => Engine::Consume(
                self.moved_to(Consume { portfolio: self.state.portfolio }),
            ),
            Dispatch::ChannelClosed(refused) => Engine::Terminate(
                self.moved_to(Terminate { cause: Cause::ExecutionChannelClosed(refused) }),
            ),
        }
    }

    /// Acts on the fate of a command's request.
    #[verifier::when_used_as_spec(spec_concluded)]
    pub fn concluded(self, outcome: Dispatch) -> (next: Engine<Strategy, Portfolio>)
        ensures
            next == self.spec_concluded(outcome),
            outcome matches Dispatch::ChannelClosed(refused) ==> next == Engine::<
                Strategy,
                Portfolio,
            >::Terminate(
                self.moved_to(Terminate { cause: Cause::ExecutionChannelClosed(refused) }),
            ),
    {
        let Trader { feed, strategy, execution_tx, state } = self;
        match outcome {
            Dispatch::Delivered => Engine::Consume(
                Trader { feed, strategy, execution_tx, state: Consume { portfolio: state.portfolio } },
            ),
            Dispatch::ChannelClosed(refused) => Engine::Terminate(
                Trader {
                    feed,
                    strategy,
                    execution_tx,
                    state: Terminate { cause: Cause::ExecutionChannelClosed(refused) },
                },
            ),
        }
    }

    /// Whether `next` can follow from sending `request`: it is handed to the
    /// channel, and its fate is acted on.
    pub open spec fn requests(
        self,
        request: ExecutionRequest,
        next: Engine<Strategy, Portfolio>,
    ) -> bool {
        exists|outcome: Dispatch, execution_tx: ExecutionTx|
            #[trigger] self.execution_tx.transmits(seq![request], outcome, execution_tx)
                && next == (Trader { execution_tx, ..self }).spec_concluded(outcome)
    }

    /// Sends one request and acts on its fate.
    pub fn request(self, request: ExecutionRequest) -> (next: Engine<Strategy, Portfolio>)
        ensures
            self.requests(request, next),
    {
        let mut trader = self;
        let outcome = trader.execution_tx.send(request);
        trader.concluded(outcome)
    }

    /// Whether `next` can follow from carrying out `command`.
    ///
    /// A manual order leads to the placing of its intents, which go along. A
    /// request to close a position or to cancel an order is passed on to the
    /// execution channel as it is. A shutdown ends the session at once. In no
    /// case does the portfolio change.
    pub open spec fn executes(self, command: Command, next: Engine<Strategy, Portfolio>) -> bool {
        match command {
            Command::ManualOrder(intents) => next == Engine::<
                Strategy,
                Portfolio,
            >::GenerateOrderManual(
                (
                    self.moved_to(GenerateOrder { portfolio: self.state.portfolio, origin: Manual }),
                    intents,
                ),
            ),
            Command::ClosePosition(market) => self.requests(
                ExecutionRequest::ClosePosition(market),
                next,
            ),
            Command::CancelOrder(id) => self.requests(ExecutionRequest::CancelOrder(id), next),
            Command::Shutdown => next == Engine::<Strategy, Portfolio>::Terminate(
                self.moved_to(Terminate { cause: Cause::ShutdownCommand }),
            ),
        }
    }

    /// Carries out an operator's command.
    pub fn execute_manual_command(self, command: Command) -> (next: Engine<Strategy, Portfolio>)
        ensures
            self.executes(command, next),
    {
        match command {
            Command::ManualOrder(intents) => {
                let Trader { feed, strategy, execution_tx, state } = self;
                Engine::GenerateOrderManual(
                    (
                        Trader {
                            feed,
                            strategy,
                            execution_tx,
                            state: GenerateOrder { portfolio: state.portfolio, origin: Manual },
                        },
                        intents,
                    ),
                )
            },
            Command::ClosePosition(market) => self.request(ExecutionRequest::ClosePosition(market)),
            Command::CancelOrder(id) => self.request(ExecutionRequest::CancelOrder(id)),
            Command::Shutdown => {
                let Trader { feed, strategy, execution_tx, state: _ } = self;
                Engine::Terminate(
                    Trader {
                        feed,
                        strategy,
                        execution_tx,
                        state: Terminate { cause: Cause::ShutdownCommand },
                    },
                )
            },
        }
    }
}

} // verus!
