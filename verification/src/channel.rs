//! The bounded channels that connect the client, the broker and the
//! publishers of topics.
//!
//! Whether a channel takes a message, and which messages it hands over,
//! depends on the threads at its other end. Nothing is claimed of that:
//! the code that uses these calls is verified for every outcome.

use crossbeam::channel::Receiver;
use crossbeam::channel::Sender;
use vstd::prelude::*;

verus! {

/// `crossbeam::channel::Sender`: the sending end of a channel.
#[verifier::external_type_specification]
#[verifier::external_body]
#[verifier::reject_recursive_types(T)]
pub struct ExSender<T>(crossbeam::channel::Sender<T>);

/// `crossbeam::channel::Receiver`: the receiving end of a channel.
#[verifier::external_type_specification]
#[verifier::external_body]
#[verifier::reject_recursive_types(T)]
pub struct ExReceiver<T>(crossbeam::channel::Receiver<T>);

/// The largest capacity a channel is made with.
pub const MAX_CAPACITY: usize = 65536;

/// `crossbeam::channel::bounded`: the two ends of a new channel that holds
/// at most `cap` messages. It panics where the capacity is too large to
/// allocate, which the bound rules out for messages of the size of a
/// request or a response.
#[verifier::external_body]
pub(crate) fn bounded_channel<T>(cap: usize) -> (ends: (Sender<T>, Receiver<T>))
    requires
        cap <= MAX_CAPACITY,
{
    crossbeam::channel::bounded(cap)
}

/// `Sender::try_send`: hands the message to the channel without waiting.
/// Where the channel is full or disconnected the error gives the message
/// back.
#[verifier::external_body]
pub(crate) fn try_send<T>(tx: &Sender<T>, msg: T) -> (sent: Result<(), T>)
    ensures
        sent is Err ==> sent->Err_0 == msg,
{
    tx.try_send(msg).map_err(|e| e.into_inner())
}

/// `Receiver::try_iter`: the messages that are ready, in the order they
/// were sent, without waiting for more. It returns once the channel is
/// found empty.
#[verifier::external_body]
pub(crate) fn receive_ready<T>(rx: &Receiver<T>) -> (batch: Vec<T>)
{
    rx.try_iter().collect()
}

/// `Sender::clone`: another handle on the sending end of the same
/// channel; it is made of the same parts as the first and equal to it.
#[verifier::external_body]
pub(crate) fn clone_sender<T>(tx: &Sender<T>) -> (other: Sender<T>)
    ensures
        other == *tx,
{
    tx.clone()
}

/// `Receiver::clone`: another handle on the receiving end of the same
/// channel; it is made of the same parts as the first and equal to it.
/// A message is handed to one of the handles only.
#[verifier::external_body]
pub(crate) fn clone_receiver<T>(rx: &Receiver<T>) -> (other: Receiver<T>)
    ensures
        other == *rx,
{
    rx.clone()
}

} // verus!
