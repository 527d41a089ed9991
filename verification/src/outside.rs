//! What this library takes on trust from the crates it is built on.
//!
//! Market data, account feedback and market identifiers are carried through the
//! engine without ever being inspected, so their types are declared opaque.
//! The two channel operations the engine performs are given the little that
//! their documentation promises of every call. Neither waits for the other end
//! of its channel, and neither looks at what the calling thread is doing.

use barter_data::model::MarketEvent;
use barter_execution::model::order::OrderId;
use barter_execution::model::AccountEvent;
use barter_integration::model::{Exchange, Instrument, Market};
use tokio::sync::mpsc::error::{SendError, TryRecvError};
use tokio::sync::mpsc::{UnboundedReceiver, UnboundedSender};
use vstd::prelude::*;

verus! {

/// `barter_data::model::MarketEvent`, a normalised market data event. Opaque.
#[verifier::external_type_specification]
#[verifier::external_body]
pub struct ExMarketEvent(MarketEvent);

/// `barter_execution::model::AccountEvent`, feedback from an execution venue:
/// fills, cancellations, balances. Opaque.
#[verifier::external_type_specification]
#[verifier::external_body]
pub struct ExAccountEvent(AccountEvent);

/// `barter_execution::model::order::OrderId`, a venue's identifier of an order.
/// Opaque.
#[verifier::external_type_specification]
#[verifier::external_body]
pub struct ExOrderId(OrderId);

/// `barter_integration::model::Exchange`, the name of an exchange. Opaque.
#[verifier::external_type_specification]
#[verifier::external_body]
pub struct ExExchange(Exchange);

/// `barter_integration::model::Instrument`, a tradable base/quote pair of some
/// kind. Opaque.
#[verifier::external_type_specification]
#[verifier::external_body]
pub struct ExInstrument(Instrument);

/// `barter_integration::model::Market`, an instrument on an exchange. Opaque.
#[verifier::external_type_specification]
#[verifier::external_body]
pub struct ExMarket(Market);

/// `tokio::sync::mpsc::UnboundedSender`, the sending half of an unbounded
/// channel. Opaque.
#[verifier::external_type_specification]
#[verifier::external_body]
#[verifier::reject_recursive_types(T)]
pub struct ExUnboundedSender<T>(UnboundedSender<T>);

/// `tokio::sync::mpsc::UnboundedReceiver`, the receiving half of an unbounded
/// channel. Opaque.
#[verifier::external_type_specification]
#[verifier::external_body]
#[verifier::reject_recursive_types(T)]
pub struct ExUnboundedReceiver<T>(UnboundedReceiver<T>);

/// `tokio::sync::mpsc::error::SendError`, a tuple struct whose one public field
/// is the message that could not be sent.
#[verifier::external_type_specification]
#[verifier::reject_recursive_types(T)]
pub struct ExSendError<T>(SendError<T>);

/// `tokio::sync::mpsc::error::TryRecvError`, an enum of two variants without
/// fields: `Empty`, for a channel that holds nothing now but still has
/// senders, and `Disconnected`, for one that holds nothing and never will.
#[verifier::external_type_specification]
pub struct ExTryRecvError(TryRecvError);

/// `UnboundedReceiver::try_recv` takes the next message if one is queued and
/// otherwise says why there is none. It does not wait for a message, and it
/// does not look at whether the calling thread drives asynchronous tasks.
/// Which answer comes is up to the senders: nothing is claimed of the result,
/// nor of the receiver afterwards.
///
/// While a send is in flight tokio parks the calling thread until that send
/// is complete, which it can do on any thread that is not being torn down.
pub assume_specification<T>[ UnboundedReceiver::<T>::try_recv ](
    receiver: &mut UnboundedReceiver<T>,
) -> (answer: Result<T, TryRecvError>)
;

/// `UnboundedSender::send` never waits. It fails exactly when the receiving
/// half is closed or dropped, which this library cannot foresee; all that is
/// claimed is that a failure hands back the very message it was given.
///
/// tokio aborts the process should the count of queued messages ever overflow
/// a `usize`.
pub assume_specification<T>[ UnboundedSender::<T>::send ](
    sender: &UnboundedSender<T>,
    message: T,
) -> (result: Result<(), SendError<T>>)
    ensures
        result matches Err(error) ==> error.0 == message,
;

} // verus!
