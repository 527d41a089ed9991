//! Whole sessions: an engine built, fed and run to its end.

use barter_data::model::{DataKind, MarketEvent, PublicTrade};
use barter_execution::model::balance::{Balance, SymbolBalance};
use barter_execution::model::order::OrderId;
use barter_execution::model::{AccountEvent, AccountEventKind};
use barter_integration::model::{Exchange, Instrument, InstrumentKind, Market};
use chrono::{DateTime, Utc};
use std::collections::HashMap;
use tokio::sync::mpsc;
use trading_engine::engine::phase::Phase;
use trading_engine::engine::report::Report;
use trading_engine::engine::state::terminate::Cause;
use trading_engine::engine::Engine;
use trading_engine::event::{Command, Event, EventFeed};
use trading_engine::execution::{Defect, ExecutionRequest, OrderError, OrderIntent, Side};
use trading_engine::portfolio::{AccountUpdater, Initialiser, MarketUpdater, PortfolioError};
use trading_engine::strategy::OrderGenerator;

/// A portfolio that counts the trades and fills it has taken in.
#[derive(Clone, Debug, PartialEq)]
struct Tally {
    instruments: usize,
    trades: u64,
    fills: u64,
}

/// Raised for every trade of 10 lots or more; carries the size of the trade.
#[derive(Clone, Debug, PartialEq)]
struct Block {
    lots: u64,
}

impl Initialiser for Tally {
    type Output = Tally;

    fn init(universe: &HashMap<Exchange, Vec<Instrument>>) -> Result<Tally, PortfolioError> {
        if universe.is_empty() {
            return Err(PortfolioError::UnknownExchange);
        }
        Ok(Tally { instruments: universe.values().map(Vec::len).sum(), trades: 0, fills: 0 })
    }
}

impl MarketUpdater for Tally {
    type Signal = Block;

    fn update_from_market(
        &self,
        market: &MarketEvent,
    ) -> Result<(Tally, Option<Block>), PortfolioError> {
        match &market.kind {
            DataKind::Trade(trade) if trade.quantity >= 1.0 => {
                let lots = trade.quantity as u64;
                let signal = if lots >= 10 { Some(Block { lots }) } else { None };
                Ok((Tally { trades: self.trades + 1, ..self.clone() }, signal))
            },
            _ => Err(PortfolioError::MalformedEvent),
        }
    }
}

impl AccountUpdater for Tally {
    fn update_from_account(&self, account: &AccountEvent) -> Result<Tally, PortfolioError> {
        match &account.kind {
            AccountEventKind::Balance(_) => Ok(Tally { fills: self.fills + 1, ..self.clone() }),
            _ => Err(PortfolioError::MalformedEvent),
        }
    }
}

/// A strategy that answers a block of `n` lots with `copies` orders, of
/// `n`, `n + 1`, ... lots, on the market of the event.
struct Follower {
    copies: u64,
}

impl OrderGenerator<Tally> for Follower {
    fn generate_orders(&mut self, _: &Tally, market: &MarketEvent, signal: &Block) -> Vec<OrderIntent> {
        (0..self.copies)
            .map(|i| OrderIntent {
                market: Market::new(market.exchange.clone(), market.instrument.clone()),
                side: Side::Buy,
                quantity: signal.lots + i,
                limit_price: None,
            })
            .collect()
    }
}

type Session = Engine<Follower, Tally>;

fn btc() -> Instrument {
    Instrument::new("btc", "usdt", InstrumentKind::Spot)
}

fn trade(lots: f64) -> Event {
    Event::Market(MarketEvent {
        exchange_time: DateTime::<Utc>::default(),
        received_time: DateTime::<Utc>::default(),
        exchange: Exchange::from("binance"),
        instrument: btc(),
        kind: DataKind::Trade(PublicTrade {
            id: "t".to_string(),
            price: 20_000.0,
            quantity: lots,
            side: barter_integration::model::Side::Sell,
        }),
    })
}

fn fill() -> Event {
    Event::Account(AccountEvent {
        received_time: DateTime::<Utc>::default(),
        exchange: Exchange::from("binance"),
        kind: AccountEventKind::Balance(SymbolBalance::new("btc", Balance::new(1.0, 1.0))),
    })
}

fn buy(lots: u64) -> ExecutionRequest {
    ExecutionRequest::OpenOrder(OrderIntent {
        market: Market::new("binance", btc()),
        side: Side::Buy,
        quantity: lots,
        limit_price: None,
    })
}

fn listing() -> HashMap<Exchange, Vec<Instrument>> {
    let mut universe = HashMap::new();
    universe.insert(Exchange::from("binance"), vec![btc()]);
    universe
}

/// An engine in its first phase whose feed holds `events`, and is closed after
/// them if `close` says so; with it the consumer's end of the execution
/// channel and, unless the feed was closed, the producers' end of the feed.
fn session(
    events: Vec<Event>,
    close: bool,
    copies: u64,
    universe: HashMap<Exchange, Vec<Instrument>>,
) -> (Session, mpsc::UnboundedReceiver<ExecutionRequest>, Option<mpsc::UnboundedSender<Event>>) {
    let (event_tx, event_rx) = mpsc::unbounded_channel();
    let (execution_tx, execution_rx) = mpsc::unbounded_channel();
    for event in events {
        event_tx.send(event).unwrap();
    }
    let engine = Engine::builder()
        .feed(EventFeed::new(event_rx))
        .strategy(Follower { copies })
        .execution_tx(execution_tx)
        .instruments(universe)
        .build();
    let engine = match engine {
        Ok(engine) => engine,
        Err(error) => panic!("the builder was given everything, yet it reported {:?}", error),
    };
    (engine, execution_rx, if close { None } else { Some(event_tx) })
}

fn drain(rx: &mut mpsc::UnboundedReceiver<ExecutionRequest>) -> Vec<ExecutionRequest> {
    let mut received = Vec::new();
    while let Ok(request) = rx.try_recv() {
        received.push(request);
    }
    received
}

fn cause_of(engine: &Session) -> &Cause {
    match engine {
        Engine::Terminate(trader) => &trader.state.cause,
        _ => panic!("the session is still going: {:?}", engine.phase()),
    }
}

fn tally_of(engine: &Session) -> &Tally {
    match engine {
        Engine::Consume(trader) => &trader.state.portfolio,
        _ => panic!("the engine is not waiting for the feed: {:?}", engine.phase()),
    }
}

/// Steps the engine until it terminates and returns the phases it went
/// through, the first and the last included.
fn trace(mut engine: Session) -> (Vec<Phase>, Session) {
    let mut phases = vec![engine.phase()];
    while !engine.is_terminated() {
        engine = engine.next();
        phases.push(engine.phase());
    }
    (phases, engine)
}

#[test]
fn two_market_events_then_a_closed_feed() {
    let (engine, mut requests, _) = session(vec![trade(1.0), trade(2.0)], true, 1, listing());
    let (phases, end) = trace(engine);
    assert_eq!(
        phases,
        vec![
            Phase::Initialise,
            Phase::Consume,
            Phase::UpdateFromMarket,
            Phase::Consume,
            Phase::UpdateFromMarket,
            Phase::Consume,
            Phase::Terminate,
        ]
    );
    assert_eq!(*cause_of(&end), Cause::FeedClosed);
    assert_eq!(drain(&mut requests), Vec::new());
}

#[test]
fn run_returns_once_the_feed_is_closed() {
    let (engine, _requests, _) = session(vec![trade(1.0), trade(2.0)], true, 1, listing());
    let end = engine.run();
    assert!(end.is_terminated());
    assert_eq!(*cause_of(&end), Cause::FeedClosed);
}

#[test]
fn run_stops_when_it_has_made_the_transitions_allowed() {
    let (engine, _requests, _events) = session(vec![trade(1.0), trade(2.0)], false, 1, listing());
    let paused = engine.run_for(3);
    assert_eq!(paused.phase(), Phase::Consume);
    assert_eq!(*tally_of(&paused), Tally { instruments: 1, trades: 1, fills: 0 });
}

#[test]
fn run_of_no_transitions_returns_the_engine_as_it_is() {
    let (engine, _requests, _events) = session(vec![trade(1.0)], false, 1, listing());
    let same = engine.run_for(0);
    assert_eq!(same.phase(), Phase::Initialise);
}

#[test]
fn run_can_be_resumed() {
    let (engine, _requests, _) = session(vec![trade(1.0), fill(), trade(2.0)], true, 1, listing());
    let paused = engine.run_for(2);
    assert_eq!(paused.phase(), Phase::UpdateFromMarket);
    let paused = paused.run_for(4);
    assert_eq!(paused.phase(), Phase::UpdateFromMarket);
    let paused = paused.run_for(1);
    assert_eq!(*tally_of(&paused), Tally { instruments: 1, trades: 2, fills: 1 });
    let end = paused.run();
    assert_eq!(*cause_of(&end), Cause::FeedClosed);
}

#[test]
fn run_on_a_terminated_engine_changes_nothing() {
    let (engine, _requests, _) = session(vec![Event::Command(Command::Shutdown)], true, 1, listing());
    let end = engine.run();
    assert_eq!(*cause_of(&end), Cause::ShutdownCommand);
    let end = end.run_for(5);
    assert_eq!(*cause_of(&end), Cause::ShutdownCommand);
}

#[test]
fn initialisation_failure_ends_the_session_before_any_event() {
    let (engine, _requests, _) = session(vec![trade(1.0)], true, 1, HashMap::new());
    let (phases, end) = trace(engine);
    assert_eq!(phases, vec![Phase::Initialise, Phase::Terminate]);
    assert_eq!(*cause_of(&end), Cause::InitialisationFailed(PortfolioError::UnknownExchange));
    match end {
        Engine::Terminate(mut trader) => assert!(matches!(
            trader.feed.next(),
            trading_engine::event::Feed::Next(Event::Market(_))
        )),
        _ => panic!("the session is over"),
    }
}

#[test]
fn requests_keep_the_order_of_the_events_that_prompted_them() {
    let events = vec![trade(10.0), trade(20.0), trade(30.0)];
    let (engine, mut requests, _) = session(events, true, 2, listing());
    let end = engine.run();
    assert_eq!(*cause_of(&end), Cause::FeedClosed);
    assert_eq!(
        drain(&mut requests),
        vec![buy(10), buy(11), buy(20), buy(21), buy(30), buy(31)]
    );
}

#[test]
fn requests_of_commands_and_signals_interleave_as_the_feed_does() {
    let events = vec![
        Event::Command(Command::CancelOrder(OrderId::from("c-1"))),
        trade(40.0),
        Event::Command(Command::ManualOrder(vec![OrderIntent {
            market: Market::new("binance", btc()),
            side: Side::Buy,
            quantity: 5,
            limit_price: None,
        }])),
        trade(3.0),
        Event::Command(Command::ClosePosition(Market::new("binance", btc()))),
    ];
    let (engine, mut requests, _) = session(events, true, 1, listing());
    let (phases, end) = trace(engine);
    assert_eq!(
        phases,
        vec![
            Phase::Initialise,
            Phase::Consume,
            Phase::ExecuteCommand,
            Phase::Consume,
            Phase::UpdateFromMarket,
            Phase::GenerateOrder,
            Phase::Consume,
            Phase::ExecuteCommand,
            Phase::GenerateOrderManual,
            Phase::Consume,
            Phase::UpdateFromMarket,
            Phase::Consume,
            Phase::ExecuteCommand,
            Phase::Consume,
            Phase::Terminate,
        ]
    );
    assert_eq!(*cause_of(&end), Cause::FeedClosed);
    assert_eq!(
        drain(&mut requests),
        vec![
            ExecutionRequest::CancelOrder(OrderId::from("c-1")),
            buy(40),
            buy(5),
            ExecutionRequest::ClosePosition(Market::new("binance", btc())),
        ]
    );
}

#[test]
fn every_transition_of_a_session_is_in_the_table() {
    let events = vec![
        trade(12.0),
        fill(),
        trade(0.0),
        Event::Command(Command::ManualOrder(Vec::new())),
        trade(2.0),
        Event::Command(Command::Shutdown),
        trade(50.0),
    ];
    let (engine, _requests, _) = session(events, true, 3, listing());
    let (phases, end) = trace(engine);
    for step in phases.windows(2) {
        assert!(step[0].permits(step[1]), "{:?} -> {:?}", step[0], step[1]);
    }
    assert_eq!(*cause_of(&end), Cause::ShutdownCommand);
    assert_eq!(phases.iter().filter(|phase| **phase == Phase::Consume).count(), 6);
}

#[test]
fn malformed_events_do_not_end_the_session() {
    let events = vec![trade(1.0), trade(0.5), trade(f64::NAN), fill(), trade(1.0)];
    let (engine, _requests, events_tx) = session(events, false, 1, listing());

    let paused = engine.run_for(11);

    assert_eq!(paused.phase(), Phase::Consume);
    assert_eq!(*tally_of(&paused), Tally { instruments: 1, trades: 2, fills: 1 });
    drop(events_tx);
    let end = paused.run();
    assert_eq!(*cause_of(&end), Cause::FeedClosed);
}

#[test]
fn malformed_market_event_is_absorbed_at_once() {
    let (engine, _requests, _events) = session(vec![trade(4.0), trade(-4.0)], false, 1, listing());
    let before = engine.run_for(3);
    assert_eq!(*tally_of(&before), Tally { instruments: 1, trades: 1, fills: 0 });
    let after = before.run_for(2);
    assert_eq!(*tally_of(&after), Tally { instruments: 1, trades: 1, fills: 0 });
}

#[test]
fn dead_execution_channel_ends_the_session_at_the_next_order() {
    let events = vec![trade(1.0), fill(), trade(15.0), trade(16.0)];
    let (engine, requests, _events) = session(events, false, 2, listing());
    drop(requests);
    let (phases, end) = trace(engine);
    assert_eq!(
        phases,
        vec![
            Phase::Initialise,
            Phase::Consume,
            Phase::UpdateFromMarket,
            Phase::Consume,
            Phase::UpdateFromAccount,
            Phase::Consume,
            Phase::UpdateFromMarket,
            Phase::GenerateOrder,
            Phase::Terminate,
        ]
    );
    assert_eq!(*cause_of(&end), Cause::ExecutionChannelClosed(buy(15)));
}

#[test]
fn consumer_gone_midway_loses_nothing_that_was_accepted() {
    let (engine, mut requests, _events) = session(vec![trade(10.0), trade(20.0)], false, 2, listing());
    let paused = engine.run_for(4);
    assert_eq!(paused.phase(), Phase::Consume);
    assert_eq!(drain(&mut requests), vec![buy(10), buy(11)]);
    drop(requests);
    let end = paused.run();
    assert_eq!(*cause_of(&end), Cause::ExecutionChannelClosed(buy(20)));
}

#[test]
fn unread_execution_channel_never_holds_the_engine_up() {
    let events = vec![trade(100.0), trade(200.0)];
    let (engine, mut requests, _) = session(events, true, 5_000, listing());
    let end = engine.run();
    assert_eq!(*cause_of(&end), Cause::FeedClosed);
    let queued = drain(&mut requests);
    assert_eq!(queued.len(), 10_000);
    assert_eq!(queued[0], buy(100));
    assert_eq!(queued[4_999], buy(5_099));
    assert_eq!(queued[5_000], buy(200));
    assert_eq!(queued[9_999], buy(5_199));
}

#[test]
fn shutdown_command_leaves_later_events_unread() {
    let events = vec![trade(1.0), Event::Command(Command::Shutdown), trade(30.0)];
    let (engine, mut requests, _) = session(events, true, 1, listing());
    let end = engine.run();
    assert_eq!(*cause_of(&end), Cause::ShutdownCommand);
    assert_eq!(drain(&mut requests), Vec::new());
    match end {
        Engine::Terminate(mut trader) => assert!(matches!(
            trader.feed.next(),
            trading_engine::event::Feed::Next(Event::Market(_))
        )),
        _ => panic!("the session is over"),
    }
}

/// An engine in its first phase on a feed that never waits.
fn impatient_session(
    copies: u64,
) -> (Session, mpsc::UnboundedReceiver<ExecutionRequest>, mpsc::UnboundedSender<Event>) {
    let (event_tx, event_rx) = mpsc::unbounded_channel();
    let (execution_tx, execution_rx) = mpsc::unbounded_channel();
    let engine = Engine::builder()
        .feed(EventFeed::with_patience(event_rx, 1))
        .strategy(Follower { copies })
        .execution_tx(execution_tx)
        .instruments(listing())
        .build();
    match engine {
        Ok(engine) => (engine, execution_rx, event_tx),
        Err(error) => panic!("the builder was given everything, yet it reported {:?}", error),
    }
}

#[test]
fn run_for_returns_from_an_open_and_empty_feed() {
    let (engine, _requests, events) = impatient_session(1);
    let waiting = engine.run_for(50);
    assert_eq!(waiting.phase(), Phase::Consume);
    assert_eq!(*tally_of(&waiting), Tally { instruments: 1, trades: 0, fills: 0 });

    events.send(trade(2.0)).unwrap();
    let waiting = waiting.run_for(50);
    assert_eq!(*tally_of(&waiting), Tally { instruments: 1, trades: 1, fills: 0 });

    drop(events);
    let end = waiting.run();
    assert_eq!(*cause_of(&end), Cause::FeedClosed);
}

#[test]
fn waiting_consumes_nothing_and_sends_nothing() {
    let (engine, mut requests, events) = impatient_session(2);
    let waiting = engine.run_for(10);
    assert_eq!(drain(&mut requests), Vec::new());
    events.send(trade(10.0)).unwrap();
    events.send(trade(1.0)).unwrap();
    let waiting = waiting.run_for(3);
    assert_eq!(waiting.phase(), Phase::Consume);
    assert_eq!(*tally_of(&waiting), Tally { instruments: 1, trades: 1, fills: 0 });
    assert_eq!(drain(&mut requests), vec![buy(10), buy(11)]);
    let waiting = waiting.run_for(20);
    assert_eq!(*tally_of(&waiting), Tally { instruments: 1, trades: 2, fills: 0 });
    assert_eq!(drain(&mut requests), Vec::new());
}

#[test]
fn engine_runs_on_a_thread_that_drives_asynchronous_tasks() {
    let runtime = match tokio::runtime::Builder::new_current_thread().build() {
        Ok(runtime) => runtime,
        Err(error) => panic!("no runtime to be had: {:?}", error),
    };
    let end = runtime.block_on(async {
        let events = vec![trade(10.0), fill(), trade(1.0)];
        let (engine, mut requests, _) = session(events, true, 1, listing());
        let end = engine.run();
        assert_eq!(drain(&mut requests), vec![buy(10)]);
        end
    });
    assert_eq!(*cause_of(&end), Cause::FeedClosed);

    let paused = runtime.block_on(async {
        let (engine, _requests, _events) = impatient_session(1);
        engine.run_for(7)
    });
    assert_eq!(paused.phase(), Phase::Consume);
}

#[test]
fn strategy_with_nothing_to_say_sends_nothing() {
    let (engine, mut requests, _) = session(vec![trade(10.0)], true, 0, listing());
    let (phases, _) = trace(engine);
    assert_eq!(
        phases,
        vec![
            Phase::Initialise,
            Phase::Consume,
            Phase::UpdateFromMarket,
            Phase::GenerateOrder,
            Phase::Consume,
            Phase::Terminate,
        ]
    );
    assert_eq!(drain(&mut requests), Vec::new());
}

#[test]
fn stepping_a_session_reports_every_error_it_recovered_from() {
    let events = vec![
        trade(12.0),
        trade(0.25),
        fill(),
        Event::Command(Command::ManualOrder(vec![
            OrderIntent {
                market: Market::new("binance", btc()),
                side: Side::Sell,
                quantity: 0,
                limit_price: None,
            },
            OrderIntent {
                market: Market::new("binance", btc()),
                side: Side::Sell,
                quantity: 4,
                limit_price: Some(0),
            },
        ])),
        trade(3.0),
    ];
    let (mut engine, mut requests, _) = session(events, true, 1, listing());
    let mut reports = Vec::new();
    let mut transitions = 0;
    while !engine.is_terminated() {
        let (next, report) = engine.step();
        engine = next;
        transitions += 1;
        if !report.is_clean() {
            reports.push((transitions, report));
        }
    }
    assert_eq!(*cause_of(&engine), Cause::FeedClosed);
    assert_eq!(
        reports,
        vec![
            (6, Report { rejection: Some(PortfolioError::MalformedEvent), defects: Vec::new() }),
            (
                11,
                Report {
                    rejection: None,
                    defects: vec![
                        Defect { index: 0, error: OrderError::ZeroQuantity },
                        Defect { index: 1, error: OrderError::ZeroLimitPrice },
                    ],
                }
            ),
        ]
    );
    assert_eq!(drain(&mut requests), vec![buy(12)]);
}

#[test]
fn step_and_next_drive_a_session_alike() {
    let events = || vec![trade(12.0), trade(0.25), fill(), trade(3.0)];
    let (by_next, mut first, _) = session(events(), true, 2, listing());
    let (mut by_step, mut second, _) = session(events(), true, 2, listing());

    let (phases, end) = trace(by_next);
    let mut stepped = vec![by_step.phase()];
    while !by_step.is_terminated() {
        by_step = by_step.step().0;
        stepped.push(by_step.phase());
    }
    assert_eq!(phases, stepped);
    assert_eq!(cause_of(&end), cause_of(&by_step));
    assert_eq!(drain(&mut first), drain(&mut second));
}

#[test]
fn session_is_no_longer_than_its_pulls_allow() {
    let events = vec![
        trade(12.0),
        fill(),
        trade(2.0),
        Event::Command(Command::ManualOrder(Vec::new())),
        trade(0.0),
        Event::Command(Command::CancelOrder(OrderId::from("c"))),
    ];
    let (engine, _requests, _) = session(events, true, 1, listing());
    let (phases, end) = trace(engine);
    assert_eq!(*cause_of(&end), Cause::FeedClosed);
    let transitions = phases.len() - 1;
    let pulls = phases[..transitions].iter().filter(|phase| **phase == Phase::Consume).count();
    assert_eq!(pulls, 7);
    assert_eq!(transitions, 16);
    assert!(transitions <= 3 * pulls + 1);
}

#[test]
fn longest_session_for_its_pulls_places_orders_after_every_event() {
    let events = vec![trade(10.0), trade(20.0), trade(30.0)];
    let (engine, _requests, _) = session(events, true, 1, listing());
    let (phases, _) = trace(engine);
    assert_eq!(phases.len() - 1, 1 + 3 * 3 + 1);
}

#[test]
fn dead_execution_channel_leaves_later_events_in_the_feed() {
    let events = vec![trade(15.0), fill(), trade(16.0)];
    let (engine, requests, _events) = session(events, false, 1, listing());
    drop(requests);
    let end = engine.run();
    assert_eq!(*cause_of(&end), Cause::ExecutionChannelClosed(buy(15)));
    let end = end.run_for(9);
    assert_eq!(*cause_of(&end), Cause::ExecutionChannelClosed(buy(15)));
    match end {
        Engine::Terminate(mut trader) => {
            assert!(matches!(
                trader.feed.next(),
                trading_engine::event::Feed::Next(Event::Account(_))
            ));
            assert!(matches!(
                trader.feed.next(),
                trading_engine::event::Feed::Next(Event::Market(_))
            ));
        },
        _ => panic!("the session is over"),
    }
}

#[test]
fn good_event_after_a_rejected_one_meets_the_portfolio_as_it_was() {
    let events = vec![trade(-3.0), trade(2.0)];
    let (engine, mut requests, _) = session(events, true, 1, listing());
    let at_feed = engine.run_for(1);
    assert_eq!(*tally_of(&at_feed), Tally { instruments: 1, trades: 0, fills: 0 });
    let back = at_feed.run_for(2);
    assert_eq!(*tally_of(&back), Tally { instruments: 1, trades: 0, fills: 0 });
    let offered = back.run_for(1);
    match &offered {
        Engine::UpdateFromMarket((trader, _)) => {
            assert_eq!(trader.state.portfolio, Tally { instruments: 1, trades: 0, fills: 0 })
        },
        _ => panic!("the good event is to be applied, not {:?}", offered.phase()),
    }
    let applied = offered.run_for(1);
    assert_eq!(*tally_of(&applied), Tally { instruments: 1, trades: 1, fills: 0 });
    let end = applied.run();
    assert_eq!(*cause_of(&end), Cause::FeedClosed);
    assert_eq!(drain(&mut requests), Vec::new());
}
