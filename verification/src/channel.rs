//! The multicast channel that carries a topic: tokio's broadcast channel,
//! reached through a handful of trusted signatures.
//!
//! Delivery is broadcast with a fixed history depth: publishing never blocks,
//! and a consumer that falls behind by more than the depth skips ahead and is
//! told how many messages it missed on its next look. A slow consumer can
//! therefore hold back neither the publisher nor the other consumers.
//!
//! A channel is shared state behind its handles. Nothing in a handle's value
//! tells how many receivers are alive or which messages are buffered, so the
//! contracts here state only what holds of every outcome of a call.

use tokio::sync::broadcast::error::TryRecvError;
use tokio::sync::broadcast::{Receiver, Sender};
use vstd::prelude::*;

verus! {

/// The sending half of a tokio broadcast channel, opaque to the verifier.
#[verifier::external_type_specification]
#[verifier::external_body]
#[verifier::reject_recursive_types(T)]
pub struct ExSender<T>(Sender<T>);

/// The receiving half of a tokio broadcast channel, opaque to the verifier.
#[verifier::external_type_specification]
#[verifier::external_body]
#[verifier::reject_recursive_types(T)]
pub struct ExReceiver<T>(Receiver<T>);

/// What one non-suspending look at a consumer endpoint found.
#[derive(Debug, PartialEq, Eq)]
pub enum Polled<M> {
    /// The next message in publish order.
    Message(M),
    /// Nothing is waiting; publishers are still alive.
    Empty,
    /// The consumer fell behind the bounded history and skipped this many
    /// messages; the next look resumes at the oldest message still held.
    Lagged(u64),
    /// Every publish handle of the channel is gone and nothing is waiting.
    Closed,
}

/// The largest buffer depth a channel can be created with.
pub open spec fn max_depth() -> int {
    (usize::MAX / 2) as int
}

/// Calls `tokio::sync::broadcast::channel`. tokio panics on a capacity of
/// zero or above `usize::MAX / 2`; the precondition leaves both out. Nothing
/// is claimed of the two handles.
#[verifier::external_body]
pub(crate) fn open_channel<M: Clone>(capacity: usize) -> (ends: (Sender<M>, Receiver<M>))
    requires
        1 <= capacity <= max_depth(),
{
    tokio::sync::broadcast::channel(capacity)
}

/// Calls `Sender::subscribe`, which attaches a new consumer endpoint that
/// sees the messages sent after this call. Nothing is claimed of the handle.
#[verifier::external_body]
pub(crate) fn subscribe<M>(sender: &Sender<M>) -> (receiver: Receiver<M>) {
    sender.subscribe()
}

/// Calls `Sender::clone`, which makes another handle of the same channel
/// (tokio's `same_channel` holds of the two). To the contracts a publish
/// handle stands for its channel, so the copy equals the original.
#[verifier::external_body]
pub(crate) fn duplicate<M>(sender: &Sender<M>) -> (copy: Sender<M>)
    ensures
        copy == *sender,
{
    sender.clone()
}

/// Drops a consumer endpoint, which takes it out of its channel's count of
/// live consumers.
#[verifier::external_body]
pub(crate) fn close<M>(receiver: Receiver<M>) {
    drop(receiver)
}

/// Calls `Sender::receiver_count`: the number of consumer endpoints alive at
/// the moment of the call. It is read from the channel's shared state, so no
/// contract ties it to the handle's value.
#[verifier::external_body]
pub(crate) fn live_consumers<M>(sender: &Sender<M>) -> (count: usize) {
    sender.receiver_count()
}

/// Calls `Sender::send`. tokio stores the value and returns the number of
/// consumer endpoints alive at that moment, which is at least one; with no
/// endpoint alive it stores nothing and hands the value back.
#[verifier::external_body]
pub(crate) fn send<M>(sender: &Sender<M>, message: M) -> (outcome: Result<usize, M>)
    ensures
        outcome matches Ok(reached) ==> reached >= 1,
        outcome matches Err(returned) ==> returned == message,
{
    match sender.send(message) {
        Ok(reached) => Ok(reached),
        Err(refused) => Err(refused.0),
    }
}

/// Calls `Receiver::try_recv` and renames its four outcomes. tokio reports a
/// lag only when at least one message was skipped.
#[verifier::external_body]
pub(crate) fn poll<M: Clone>(receiver: &mut Receiver<M>) -> (polled: Polled<M>)
    ensures
        polled matches Polled::Lagged(missed) ==> missed >= 1,
{
    match receiver.try_recv() {
        Ok(message) => Polled::Message(message),
        Err(TryRecvError::Empty) => Polled::Empty,
        Err(TryRecvError::Lagged(missed)) => Polled::Lagged(missed),
        Err(TryRecvError::Closed) => Polled::Closed,
    }
}

} // verus!
