//! Errors of the payload path.
use vstd::prelude::*;

verus! {

/// A send found the receiving half gone; the value comes back to the caller.
#[derive(Debug, PartialEq, Eq)]
pub struct SendError<T>(pub T);

/// A blocking receive found the channel empty and every sender gone.
#[derive(Clone, Copy, Debug, PartialEq, Eq, Structural)]
pub struct RecvError;

/// Why a receive with a time limit returned no value.
#[derive(Clone, Copy, Debug, PartialEq, Eq, Structural)]
pub enum RecvTimeoutError {
    /// No value arrived in time.
    Timeout,
    /// The channel is empty and every sender is gone.
    Disconnected,
}

/// Why a receive that does not wait returned no value.
#[derive(Clone, Copy, Debug, PartialEq, Eq, Structural)]
pub enum TryRecvError {
    /// The channel is empty right now.
    Empty,
    /// The channel is empty and every sender is gone.
    Disconnected,
}

} // verus!
