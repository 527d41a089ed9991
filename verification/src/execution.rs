//! Order intents, the execution requests made from them, and the handle through
//! which requests leave the engine.

use barter_execution::model::order::OrderId;
use barter_integration::model::Market;
use tokio::sync::mpsc::UnboundedSender;
use vstd::prelude::*;

verus! {

/// Direction of an order.
#[derive(Clone, Copy, Debug, PartialEq, Eq, Structural)]
pub enum Side {
    Buy,
    Sell,
}

/// Why an order intent cannot be packaged as an execution request.
#[derive(Clone, Copy, Debug, PartialEq, Eq, Structural)]
pub enum OrderError {
    /// The intent asks to trade nothing.
    ZeroQuantity,
    /// The intent names a limit price of zero.
    ZeroLimitPrice,
}

/// A decision to trade, made by a strategy or by an operator, before it is
/// packaged as an [`ExecutionRequest`].
///
/// Quantities are counted in lots and prices in ticks of the market.
#[derive(Debug, PartialEq)]
pub struct OrderIntent {
    pub market: Market,
    pub side: Side,
    /// Number of lots to trade.
    pub quantity: u64,
    /// Limit price in ticks; `None` asks for execution at the market.
    pub limit_price: Option<u64>,
}

impl OrderIntent {
    /// What is wrong with this intent, if anything. A zero quantity is
    /// reported before a zero limit price.
    pub open spec fn defect(self) -> Option<OrderError> {
        if self.quantity == 0 {
            Some(OrderError::ZeroQuantity)
        } else if self.limit_price == Some(0u64) {
            Some(OrderError::ZeroLimitPrice)
        } else {
            None
        }
    }

    /// An intent can be packaged when it trades at least one lot and its limit
    /// price, if it has one, is at least one tick.
    pub open spec fn is_valid(self) -> bool {
        self.defect() is None
    }

    /// Checks the intent and says what is wrong with it, if anything.
    pub fn validate(&self) -> (result: Result<(), OrderError>)
        ensures
            result == match self.defect() {
                Some(error) => Err::<(), OrderError>(error),
                None => Ok(()),
            },
    {
        if self.quantity == 0 {
            return Err(OrderError::ZeroQuantity);
        }
        match self.limit_price {
            Some(price) => {
                if price == 0 {
                    Err(OrderError::ZeroLimitPrice)
                } else {
                    Ok(())
                }
            },
            None => Ok(()),
        }
    }
}

/// A message for the execution subsystem describing one order action.
#[derive(Debug, PartialEq)]
pub enum ExecutionRequest {
    /// Open the order that the intent describes.
    OpenOrder(OrderIntent),
    /// Cancel the open order with this identifier.
    CancelOrder(OrderId),
    /// Close whatever position is held in this market.
    ClosePosition(Market),
}

impl ExecutionRequest {
    /// A request is well formed unless it opens an order from an invalid
    /// intent.
    pub open spec fn well_formed(self) -> bool {
        self matches ExecutionRequest::OpenOrder(intent) ==> intent.is_valid()
    }

    /// The result of packaging `intent`: the request to open it, or its defect.
    pub open spec fn spec_open(intent: OrderIntent) -> Result<ExecutionRequest, OrderError> {
        match intent.defect() {
            Some(error) => Err(error),
            None => Ok(ExecutionRequest::OpenOrder(intent)),
        }
    }

    /// Packages an order intent as the request to open it. Fails, naming the
    /// defect, when the intent is not valid.
    #[verifier::when_used_as_spec(spec_open)]
    pub fn open(intent: OrderIntent) -> (result: Result<ExecutionRequest, OrderError>)
        ensures
            result == Self::spec_open(intent),
            result matches Ok(request) ==> request.well_formed(),
    {
        match intent.validate() {
            Ok(()) => Ok(ExecutionRequest::OpenOrder(intent)),
            Err(error) => Err(error),
        }
    }
}

/// The request that an intent is packaged as, if it can be packaged.
pub open spec fn packaged(intent: OrderIntent) -> Option<ExecutionRequest> {
    match ExecutionRequest::spec_open(intent) {
        Ok(request) => Some(request),
        Err(_) => None,
    }
}

/// The requests that a sequence of intents gives rise to: one for each valid
/// intent, in the order of the intents. Invalid intents leave no trace.
pub open spec fn requests_of(intents: Seq<OrderIntent>) -> Seq<ExecutionRequest> {
    intents.filter_map(|intent: OrderIntent| packaged(intent))
}

/// The requests of the first `j` intents begin with the requests of the first
/// `i` intents, for `i <= j`.
pub proof fn lemma_requests_of_prefix(intents: Seq<OrderIntent>, i: int, j: int)
    requires
        0 <= i <= j <= intents.len(),
    ensures
        requests_of(intents.take(i)).len() <= requests_of(intents.take(j)).len(),
        requests_of(intents.take(j)).take(requests_of(intents.take(i)).len() as int)
            == requests_of(intents.take(i)),
    decreases j - i,
{
    if i < j {
        lemma_requests_of_prefix(intents, i, j - 1);
        intents.lemma_filter_map_take_succ(|intent: OrderIntent| packaged(intent), j - 1);
    }
}

/// An intent that could not be packaged: its place in the batch it came in,
/// counted from zero, and what is wrong with it.
#[derive(Clone, Copy, Debug, PartialEq, Eq, Structural)]
pub struct Defect {
    pub index: usize,
    pub error: OrderError,
}

/// The defects of a sequence of intents: one for each invalid intent, in the
/// order of the intents, each with the place of its intent.
pub open spec fn defects_of(intents: Seq<OrderIntent>) -> Seq<Defect>
    decreases intents.len(),
{
    if intents.len() == 0 {
        Seq::empty()
    } else {
        let before = defects_of(intents.drop_last());
        match intents.last().defect() {
            Some(error) => before.push(Defect { index: (intents.len() - 1) as usize, error }),
            None => before,
        }
    }
}

/// Every defect names an intent of the sequence and what is wrong with that
/// intent, and every intent is either packaged or named in a defect: none is
/// lost without a trace.
pub proof fn lemma_defects_of(intents: Seq<OrderIntent>)
    requires
        intents.len() <= usize::MAX,
    ensures
        requests_of(intents).len() + defects_of(intents).len() == intents.len(),
        forall|k: int|
            0 <= k < defects_of(intents).len() ==> {
                let found = #[trigger] defects_of(intents)[k];
                found.index < intents.len() && intents[found.index as int].defect() == Some(
                    found.error,
                )
            },
    decreases intents.len(),
{
    if intents.len() > 0 {
        lemma_defects_of(intents.drop_last());
        assert(requests_of(intents) == requests_of(intents.drop_last()) + (match packaged(
            intents.last(),
        ) {
            Some(request) => seq![request],
            None => Seq::empty(),
        }));
    }
}

/// Whether every request of a sequence is well formed.
pub open spec fn all_well_formed(requests: Seq<ExecutionRequest>) -> bool {
    forall|k: int| 0 <= k < requests.len() ==> (#[trigger] requests[k]).well_formed()
}

/// The requests made of intents are all well formed, whatever the intents.
pub proof fn lemma_requests_of_well_formed(intents: Seq<OrderIntent>)
    ensures
        all_well_formed(requests_of(intents)),
    decreases intents.len(),
{
    if intents.len() > 0 {
        lemma_requests_of_well_formed(intents.drop_last());
        assert(requests_of(intents) == requests_of(intents.drop_last()) + (match packaged(
            intents.last(),
        ) {
            Some(request) => seq![request],
            None => Seq::empty(),
        }));
    }
}

/// What became of a batch of requests handed to an [`ExecutionTx`].
#[derive(Debug, PartialEq)]
pub enum Dispatch {
    /// The channel accepted every request.
    Delivered,
    /// The channel refused this request because its consumer is gone. The
    /// requests before it were accepted; those after it were not attempted.
    ChannelClosed(ExecutionRequest),
}

/// The engine's end of the execution request channel.
///
/// Beside the sender it keeps, as ghost state, the sequence of requests that
/// the channel has accepted from this handle, oldest first. That sequence is
/// the handle's view.
pub struct ExecutionTx {
    tx: UnboundedSender<ExecutionRequest>,
    sent: Ghost<Seq<ExecutionRequest>>,
}

impl View for ExecutionTx {
    type V = Seq<ExecutionRequest>;

    closed spec fn view(&self) -> Seq<ExecutionRequest> {
        self.sent@
    }
}

impl ExecutionTx {
    /// The sender that this handle wraps.
    pub closed spec fn sender(self) -> UnboundedSender<ExecutionRequest> {
        self.tx
    }

    /// The handle that wraps `tx` and has sent nothing yet.
    pub closed spec fn spec_new(tx: UnboundedSender<ExecutionRequest>) -> ExecutionTx {
        ExecutionTx { tx, sent: Ghost(Seq::empty()) }
    }

    /// Wraps a sender. Nothing has been sent through the new handle.
    #[verifier::when_used_as_spec(spec_new)]
    pub fn new(tx: UnboundedSender<ExecutionRequest>) -> (handle: ExecutionTx)
        ensures
            handle == Self::spec_new(tx),
            handle.sender() == tx,
            handle@ == Seq::<ExecutionRequest>::empty(),
    {
        ExecutionTx { tx, sent: Ghost(Seq::empty()) }
    }

    /// Whether handing `requests` to this handle, one after the other and
    /// stopping at the first refusal, can end with `outcome` and leave the
    /// handle as `after`.
    ///
    /// The sender stays the same. What was sent grows by the requests that the
    /// channel accepted: all of them, or those before the one it refused.
    pub open spec fn transmits(
        self,
        requests: Seq<ExecutionRequest>,
        outcome: Dispatch,
        after: ExecutionTx,
    ) -> bool {
        &&& after.sender() == self.sender()
        &&& match outcome {
            Dispatch::Delivered => after@ == self@ + requests,
            Dispatch::ChannelClosed(refused) => exists|k: int|
                0 <= k < requests.len() && refused == #[trigger] requests[k] && after@ == self@
                    + requests.take(k),
        }
    }

    /// Offers one request to the channel.
    ///
    /// An accepted request is appended to what was sent. A refused request
    /// comes back in the outcome, and what was sent stays as it was.
    pub fn send(&mut self, request: ExecutionRequest) -> (outcome: Dispatch)
        ensures
            final(self).sender() == old(self).sender(),
            match outcome {
                Dispatch::Delivered => final(self)@ == old(self)@.push(request),
                Dispatch::ChannelClosed(refused) => refused == request && final(self)@ == old(
                    self,
                )@,
            },
            old(self).transmits(seq![request], outcome, *final(self)),
    {
        let ghost offered = request;
        match self.tx.send(request) {
            Ok(()) => {
                proof {
                    self.sent@ = self.sent@.push(offered);
                }
                assert(self@ == old(self)@ + seq![offered]);
                Dispatch::Delivered
            },
            Err(error) => {
                assert(seq![offered][0] == offered);
                Dispatch::ChannelClosed(error.0)
            },
        }
    }

    /// Whether handing `intents` to this handle can end with `outcome`, with
    /// `defects` passed over, and leave the handle as `after`.
    ///
    /// The intents are taken in order. An invalid one is passed over and noted
    /// as a defect; a valid one is packaged and offered to the channel. If the
    /// channel takes every request, all valid intents were sent and all
    /// invalid ones noted. If it refuses one, that request came of the first
    /// intent not dealt with, and what was sent and noted is what the intents
    /// before it gave rise to.
    pub open spec fn dispatches(
        self,
        intents: Seq<OrderIntent>,
        outcome: Dispatch,
        defects: Seq<Defect>,
        after: ExecutionTx,
    ) -> bool {
        &&& after.sender() == self.sender()
        &&& match outcome {
            Dispatch::Delivered => after@ == self@ + requests_of(intents) && defects
                == defects_of(intents),
            Dispatch::ChannelClosed(refused) => exists|i: int|
                0 <= i < intents.len() && packaged(#[trigger] intents[i]) == Some(refused)
                    && after@ == self@ + requests_of(intents.take(i)) && defects == defects_of(
                    intents.take(i),
                ),
        }
    }

    /// A batch of intents is dispatched by transmitting the requests made of
    /// them.
    pub proof fn lemma_dispatches_transmits(
        self,
        intents: Seq<OrderIntent>,
        outcome: Dispatch,
        defects: Seq<Defect>,
        after: ExecutionTx,
    )
        requires
            self.dispatches(intents, outcome, defects, after),
        ensures
            self.transmits(requests_of(intents), outcome, after),
    {
        if let Dispatch::ChannelClosed(refused) = outcome {
            let i = choose|i: int|
                0 <= i < intents.len() && packaged(#[trigger] intents[i]) == Some(refused)
                    && after@ == self@ + requests_of(intents.take(i)) && defects == defects_of(
                    intents.take(i),
                );
            let k = requests_of(intents.take(i)).len() as int;
            intents.lemma_filter_map_take_succ(|intent: OrderIntent| packaged(intent), i);
            lemma_requests_of_prefix(intents, i, i + 1);
            lemma_requests_of_prefix(intents, i + 1, intents.len() as int);
            assert(intents.take(intents.len() as int) == intents);
            assert(requests_of(intents.take(i + 1))[k] == refused);
            assert(requests_of(intents).take(k) == requests_of(intents.take(i)));
        }
    }

    /// Packages each intent and offers the requests to the channel, in the
    /// order of the intents. Returns what became of the batch, and the defects
    /// of the intents that it passed over.
    ///
    /// An intent that cannot be packaged is passed over; the ones after it are
    /// still attempted. A refusal by the channel ends the batch at once, since a
    /// closed channel accepts nothing ever again.
    pub fn dispatch(&mut self, intents: Vec<OrderIntent>) -> (result: (Dispatch, Vec<Defect>))
        ensures
            old(self).dispatches(intents@, result.0, result.1@, *final(self)),
            old(self).transmits(requests_of(intents@), result.0, *final(self)),
    {
        let ghost all = intents@;
        assert(all.len() == intents.len());
        let mut defects: Vec<Defect> = Vec::new();
        let mut index: usize = 0;
        for intent in it: intents.into_iter()
            invariant
                it.seq() == all,
                all.len() <= usize::MAX,
                index == it.index(),
                self.sender() == old(self).sender(),
                self@ == old(self)@ + requests_of(all.take(it.index())),
                defects@ == defects_of(all.take(it.index())),
        {
            assert(all.take(it.index() + 1).drop_last() == all.take(it.index()));
            match ExecutionRequest::open(intent) {
                Ok(request) => {
                    match self.send(request) {
                        Dispatch::Delivered => {},
                        Dispatch::ChannelClosed(refused) => {
                            proof {
                                old(self).lemma_dispatches_transmits(
                                    all,
                                    Dispatch::ChannelClosed(refused),
                                    defects@,
                                    *self,
                                );
                            }
                            return (Dispatch::ChannelClosed(refused), defects);
                        },
                    }
                },
                Err(error) => {
                    defects.push(Defect { index, error });
                },
            }
            index = index + 1;
        }
        proof {
            assert(all.take(all.len() as int) == all);
            old(self).lemma_dispatches_transmits(all, Dispatch::Delivered, defects@, *self);
        }
        (Dispatch::Delivered, defects)
    }
}

} // verus!
