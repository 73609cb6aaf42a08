//! Poll groups: one waiter learns which of many channels has data.
use crate::channel::{Link, ReadyTarget, Receiver};
use crate::error::RecvTimeoutError;
use crate::ident::{ChannelId, TIMEOUT};
use crate::queue::{pull_timeout, unbounded};
use crossbeam::channel::Receiver as QueueReceiver;
use std::time::Duration;
use vstd::prelude::*;

verus! {

/// Something that can be bound to a poll group: it has an identifier and a
/// link through which its sends announce readiness.
pub trait Pollable {
    /// The shared link of the channel.
    fn signal(&self) -> Link;

    /// The identifier of the channel.
    fn tag(&self) -> i32;
}

impl<T> Pollable for Receiver<T> {
    fn signal(&self) -> Link {
        self.link().share()
    }

    fn tag(&self) -> i32 {
        self.id()
    }
}

/// What one wait on a readiness queue reports: the identifier that arrived,
/// or [`TIMEOUT`] where none did.
pub fn ready_or_timeout(got: Result<ChannelId, RecvTimeoutError>) -> (r: i32)
    ensures
        got matches Ok(id) ==> r == id.spec_value(),
        got is Err ==> r == TIMEOUT,
        r == TIMEOUT || r >= 0,
{
    match got {
        Ok(id) => id.value(),
        Err(_) => TIMEOUT,
    }
}

/// A readiness queue: the identifiers of the channels that had data sent,
/// in the order the sends announced them.
pub struct Signal {
    tx: ReadyTarget,
    rx: QueueReceiver<ChannelId>,
}

impl Signal {
    fn new() -> Signal {
        let (tx, rx) = unbounded();
        Signal { tx, rx }
    }
}

/// A poll group. Channels bound to it announce each send in its readiness
/// queue; [`Poll::poll`] takes those announcements in the order they came.
/// One thread at a time should wait on a group.
pub struct Poll {
    signal: Signal,
}

impl Poll {
    /// A group with an empty readiness queue and nothing bound to it.
    pub fn new() -> Poll {
        Poll { signal: Signal::new() }
    }

    /// Binds each of `receivers`, in order.
    pub fn append<T: Pollable>(&self, receivers: &[&T]) {
        let mut i: usize = 0;
        while i < receivers.len()
            decreases receivers@.len() - i,
        {
            self.add(receivers[i]);
            i = i + 1;
        }
    }

    /// Binds `receiver` to this group: its later sends are announced here, and
    /// no longer to a group it was bound to before.
    pub fn add<T: Pollable>(&self, receiver: &T) {
        let link = receiver.signal();
        link.bind(&self.signal.tx);
    }

    /// Waits at most `timeout` for an announcement and returns the identifier
    /// of the channel it names, or [`TIMEOUT`] where none came.
    pub fn poll(&self, timeout: Duration) -> (r: i32)
        ensures
            r == TIMEOUT || r >= 0,
    {
        ready_or_timeout(pull_timeout(&self.signal.rx, timeout))
    }
}

} // verus!
