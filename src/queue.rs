//! The unbounded queues of crossbeam that carry payloads and readiness.
use crate::error::{RecvError, RecvTimeoutError, SendError, TryRecvError};
use crossbeam::channel::Receiver as QueueReceiver;
use crossbeam::channel::Sender as QueueSender;
use std::time::Duration;
use vstd::prelude::*;

verus! {

#[verifier::external_type_specification]
#[verifier::external_body]
#[verifier::reject_recursive_types(T)]
pub struct ExQueueSender<T>(QueueSender<T>);

#[verifier::external_type_specification]
#[verifier::external_body]
#[verifier::reject_recursive_types(T)]
pub struct ExQueueReceiver<T>(QueueReceiver<T>);

/// Relies on crossbeam::channel::unbounded: a new, empty queue and its two ends.
#[verifier::external_body]
pub(crate) fn unbounded<T>() -> (QueueSender<T>, QueueReceiver<T>) {
    crossbeam::channel::unbounded()
}

/// Relies on crossbeam's `Clone for Sender`: another handle on the same queue.
#[verifier::external_body]
pub(crate) fn clone_sender<T>(tx: &QueueSender<T>) -> QueueSender<T> {
    tx.clone()
}

/// Relies on crossbeam::channel::Sender::send: on an unbounded queue it does not
/// block, and where the receiving end is gone the message comes back in the error.
#[verifier::external_body]
pub(crate) fn push<T>(tx: &QueueSender<T>, v: T) -> (r: Result<(), SendError<T>>)
    ensures
        r matches Err(e) ==> e.0 == v,
{
    match tx.send(v) {
        Ok(()) => Ok(()),
        Err(crossbeam::channel::SendError(m)) => Err(SendError(m)),
    }
}

/// Relies on crossbeam::channel::Receiver::recv: blocks until a message or a
/// disconnect.
#[verifier::external_body]
pub(crate) fn pull<T>(rx: &QueueReceiver<T>) -> Result<T, RecvError> {
    match rx.recv() {
        Ok(v) => Ok(v),
        Err(crossbeam::channel::RecvError) => Err(RecvError),
    }
}

/// Relies on crossbeam::channel::Receiver::recv_timeout: waits at most `timeout`.
#[verifier::external_body]
pub(crate) fn pull_timeout<T>(
    rx: &QueueReceiver<T>,
    timeout: Duration,
) -> Result<T, RecvTimeoutError> {
    match rx.recv_timeout(timeout) {
        Ok(v) => Ok(v),
        Err(crossbeam::channel::RecvTimeoutError::Timeout) => Err(RecvTimeoutError::Timeout),
        Err(crossbeam::channel::RecvTimeoutError::Disconnected) => Err(
            RecvTimeoutError::Disconnected,
        ),
    }
}

/// Relies on crossbeam::channel::Receiver::try_recv: never blocks.
#[verifier::external_body]
pub(crate) fn try_pull<T>(rx: &QueueReceiver<T>) -> Result<T, TryRecvError> {
    match rx.try_recv() {
        Ok(v) => Ok(v),
        Err(crossbeam::channel::TryRecvError::Empty) => Err(TryRecvError::Empty),
        Err(crossbeam::channel::TryRecvError::Disconnected) => Err(TryRecvError::Disconnected),
    }
}

/// Relies on crossbeam::channel::Receiver::len: the number of queued messages
/// at the moment of the call.
#[verifier::external_body]
pub(crate) fn queued<T>(rx: &QueueReceiver<T>) -> usize {
    rx.len()
}

} // verus!
