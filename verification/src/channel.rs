//! The instruction channels: tokio's unbounded queues, reached through two
//! calls whose outcome depends on what the other thread has done.

use vstd::prelude::*;
use tokio::sync::mpsc::error::TryRecvError;
use tokio::sync::mpsc::{UnboundedReceiver, UnboundedSender};
use crate::instruction::Received;

verus! {

#[verifier::external_type_specification]
#[verifier::external_body]
#[verifier::reject_recursive_types(T)]
pub struct ExUnboundedSender<T>(UnboundedSender<T>);

#[verifier::external_type_specification]
#[verifier::external_body]
#[verifier::reject_recursive_types(T)]
pub struct ExUnboundedReceiver<T>(UnboundedReceiver<T>);

/// `UnboundedSender::send`: queues the message without blocking, or, when the
/// receiving half is closed or dropped, hands the message back as the error.
/// Nothing is claimed about which of the two happens.
#[verifier::external_body]
pub(crate) fn send<T>(sender: &UnboundedSender<T>, message: T) -> (sent: Result<(), T>)
    ensures
        sent matches Err(returned) ==> returned == message,
{
    sender.send(message).map_err(|error| error.0)
}

/// `UnboundedReceiver::try_recv`: takes the oldest queued message without
/// blocking, or reports that the queue is empty or that every sender is gone.
/// Nothing is claimed about which of the three happens.
#[verifier::external_body]
pub(crate) fn try_recv<T>(receiver: &mut UnboundedReceiver<T>) -> (received: Received<T>) {
    match receiver.try_recv() {
        Ok(message) => Received::Message(message),
        Err(TryRecvError::Empty) => Received::Empty,
        Err(TryRecvError::Disconnected) => Received::Disconnected,
    }
}

} // verus!
