//! The single ordered feed from which the engine learns of the outside world.

use crate::execution::OrderIntent;
use barter_data::model::MarketEvent;
use barter_execution::model::order::OrderId;
use barter_execution::model::AccountEvent;
use barter_integration::model::Market;
use tokio::sync::mpsc::error::TryRecvError;
use tokio::sync::mpsc::UnboundedReceiver;
use vstd::prelude::*;

verus! {

/// An instruction from the operator.
#[derive(Debug)]
pub enum Command {
    /// Place the orders that these intents describe.
    ManualOrder(Vec<OrderIntent>),
    /// Close whatever position is held in this market.
    ClosePosition(Market),
    /// Cancel the open order with this identifier.
    CancelOrder(OrderId),
    /// End the trading session.
    Shutdown,
}

/// One item of the feed.
#[derive(Debug)]
pub enum Event {
    Market(MarketEvent),
    Account(AccountEvent),
    Command(Command),
}

/// What a pull on the feed yields.
#[derive(Debug)]
pub enum Feed {
    /// The next event, in the order in which the producers queued it.
    Next(Event),
    /// Nothing came for as long as the feed was willing to look. The feed is
    /// open, and an event may yet come.
    Idle,
    /// The feed is closed and drained: no event will ever follow.
    Finished,
}

/// The engine's end of the event channel.
///
/// The handle waits for an event by looking into the channel again and again,
/// up to as many times as it has patience for, so that a pull always returns.
/// Beside the receiver and its patience it keeps, as ghost state, the sequence
/// of events that it has yielded so far, oldest first. That sequence is the
/// handle's view.
pub struct EventFeed {
    event_rx: UnboundedReceiver<Event>,
    patience: u64,
    consumed: Ghost<Seq<Event>>,
}

impl View for EventFeed {
    type V = Seq<Event>;

    closed spec fn view(&self) -> Seq<Event> {
        self.consumed@
    }
}

impl EventFeed {
    /// The receiver that this handle wraps.
    pub closed spec fn receiver(self) -> UnboundedReceiver<Event> {
        self.event_rx
    }

    /// How many times one pull looks into the channel before it gives up.
    pub closed spec fn patience(self) -> u64 {
        self.patience
    }

    /// The handle that wraps `event_rx`, gives up a pull after `patience`
    /// looks, and has yielded nothing yet.
    pub closed spec fn spec_with_patience(
        event_rx: UnboundedReceiver<Event>,
        patience: u64,
    ) -> EventFeed {
        EventFeed { event_rx, patience, consumed: Ghost(Seq::empty()) }
    }

    /// Wraps a receiver in a handle whose pulls give up after `patience` looks
    /// into the channel. With a patience of one a pull never waits. Nothing has
    /// been yielded by the new handle.
    #[verifier::when_used_as_spec(spec_with_patience)]
    pub fn with_patience(event_rx: UnboundedReceiver<Event>, patience: u64) -> (feed: EventFeed)
        ensures
            feed == Self::spec_with_patience(event_rx, patience),
            feed.receiver() == event_rx,
            feed.patience() == patience,
            feed@ == Seq::<Event>::empty(),
    {
        EventFeed { event_rx, patience, consumed: Ghost(Seq::empty()) }
    }

    /// The handle that wraps `event_rx`, has all the patience there is, and
    /// has yielded nothing yet.
    pub open spec fn spec_new(event_rx: UnboundedReceiver<Event>) -> EventFeed {
        Self::spec_with_patience(event_rx, u64::MAX)
    }

    /// Wraps a receiver in a handle whose pulls wait for as long as it takes:
    /// they give up only after `u64::MAX` looks into the channel. Nothing has
    /// been yielded by the new handle.
    #[verifier::when_used_as_spec(spec_new)]
    pub fn new(event_rx: UnboundedReceiver<Event>) -> (feed: EventFeed)
        ensures
            feed == Self::spec_new(event_rx),
            feed.receiver() == event_rx,
            feed.patience() == u64::MAX,
            feed@ == Seq::<Event>::empty(),
    {
        Self::with_patience(event_rx, u64::MAX)
    }

    /// What one answer of the channel amounts to: a message is the next event,
    /// an empty channel that still has senders is an idle feed, and one that
    /// has lost them is the end of the feed.
    pub open spec fn item_of(answer: Result<Event, TryRecvError>) -> Feed {
        match answer {
            Ok(event) => Feed::Next(event),
            Err(TryRecvError::Empty) => Feed::Idle,
            Err(TryRecvError::Disconnected) => Feed::Finished,
        }
    }

    /// Whether one pull on this feed can yield `item` and leave the feed as
    /// `after`: an event is recorded as consumed, anything else leaves the
    /// record as it was. The patience stays the same.
    pub open spec fn yields(self, item: Feed, after: EventFeed) -> bool {
        &&& after.patience() == self.patience()
        &&& after@ == match item {
            Feed::Next(event) => self@.push(event),
            Feed::Idle => self@,
            Feed::Finished => self@,
        }
    }

    /// Takes in one answer of the channel and hands it on as an item of the
    /// feed.
    ///
    /// A message becomes the next event and is recorded as consumed. The lack
    /// of one becomes an idle feed or the end of the feed, as the channel says,
    /// and leaves the record as it was. The receiver is not touched.
    pub fn record(&mut self, answer: Result<Event, TryRecvError>) -> (item: Feed)
        ensures
            item == Self::item_of(answer),
            final(self).receiver() == old(self).receiver(),
            final(self).patience() == old(self).patience(),
            final(self)@ == match answer {
                Ok(event) => old(self)@.push(event),
                Err(_) => old(self)@,
            },
            old(self).yields(item, *final(self)),
    {
        match answer {
            Ok(event) => {
                proof {
                    self.consumed@ = self.consumed@.push(event);
                }
                Feed::Next(event)
            },
            Err(TryRecvError::Empty) => Feed::Idle,
            Err(TryRecvError::Disconnected) => Feed::Finished,
        }
    }

    /// Pulls one item: looks into the channel until it answers with an event
    /// or with its end, and gives up, yielding `Idle`, when it has looked as
    /// often as the feed has patience for.
    ///
    /// Which item comes is up to the producers. Whatever comes, at most one
    /// event is consumed, and it is the one returned. A feed without any
    /// patience does not look at all: it is idle, and stays as it was.
    pub fn next(&mut self) -> (item: Feed)
        ensures
            old(self).yields(item, *final(self)),
            old(self).patience() == 0 ==> item == Feed::Idle && *final(self) == *old(self),
    {
        let mut looks: u64 = 0;
        while looks < self.patience
            invariant
                looks <= self.patience,
                self.patience == old(self).patience,
                self@ == old(self)@,
                looks == 0 ==> *self == *old(self),
            decreases self.patience - looks,
        {
            let answer = self.event_rx.try_recv();
            match self.record(answer) {
                Feed::Idle => {},
                item => {
                    return item;
                },
            }
            looks = looks + 1;
        }
        Feed::Idle
    }
}

} // verus!
