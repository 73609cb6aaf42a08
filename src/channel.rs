//! Channel pairs whose sends also announce readiness to a bound poll group.
use crate::error::{RecvError, RecvTimeoutError, SendError, TryRecvError};
use crate::ident::{allocates, ChannelId, IdPool};
use crate::queue::{clone_sender, pull, pull_timeout, push, queued, try_pull, unbounded};
use crossbeam::channel::Receiver as QueueReceiver;
use crossbeam::channel::Sender as QueueSender;
use std::sync::Arc;
use std::time::Duration;
use vstd::prelude::*;
use vstd::rwlock::{RwLock, RwLockPredicate};

verus! {

/// Where a channel announces readiness: a poll group's readiness queue.
pub type ReadyTarget = QueueSender<ChannelId>;

/// Accepts every value: the locks below guard no invariant of their own.
pub struct AnyValue;

impl<V> RwLockPredicate<V> for AnyValue {
    open spec fn inv(self, v: V) -> bool {
        true
    }
}

/// The shared, rebindable reference from a channel to the readiness queue
/// of the poll group it is bound to, if any.
pub struct Link {
    target: Arc<RwLock<Option<ReadyTarget>, AnyValue>>,
}

impl Link {
    /// A link bound to no poll group.
    pub fn unbound() -> Link {
        Link { target: Arc::new(RwLock::new(None, Ghost(AnyValue))) }
    }

    /// Another handle on the same link.
    pub fn share(&self) -> Link {
        Link { target: Arc::clone(&self.target) }
    }

    /// Points the link at `target`, replacing any earlier binding.
    pub fn bind(&self, target: &ReadyTarget) {
        let (_previous, handle) = self.target.acquire_write();
        handle.release_write(Some(clone_sender(target)));
    }

    /// A handle on the readiness queue that the link points at now.
    pub fn resolve(&self) -> Option<ReadyTarget> {
        let handle = self.target.acquire_read();
        let current = match handle.borrow() {
            Some(tx) => Some(clone_sender(tx)),
            None => None,
        };
        handle.release_read();
        current
    }
}

/// What a producer has learnt of its readiness target.
pub enum Resolution {
    /// It has not sent yet, so it has not looked at the link.
    Unresolved,
    /// Fixed at its first send: later rebinding does not reach it.
    Resolved(Option<ReadyTarget>),
}

impl Resolution {
    /// The target a send announces to: the one fixed earlier, or else the one
    /// the link points at now.
    pub fn target(self, link: &Link) -> (r: Option<ReadyTarget>)
        ensures
            self matches Resolution::Resolved(t) ==> r == t,
    {
        match self {
            Resolution::Resolved(t) => t,
            Resolution::Unresolved => link.resolve(),
        }
    }
}

/// The sending half of a channel. Clones share the queue and the link; each
/// keeps its own view of the readiness target.
#[verifier::reject_recursive_types(T)]
pub struct Sender<T> {
    cache: RwLock<Resolution, AnyValue>,
    link: Link,
    tx: QueueSender<T>,
    tag: ChannelId,
}

/// The receiving half of a channel.
#[verifier::reject_recursive_types(T)]
pub struct Receiver<T> {
    link: Link,
    rx: QueueReceiver<T>,
    tag: ChannelId,
}

/// Creates a channel pair, with the next identifier of `ids`, an empty queue
/// and a link bound to no poll group.
pub fn channel<T>(ids: &mut IdPool) -> (r: (Sender<T>, Receiver<T>))
    requires
        old(ids).wf(),
        old(ids).next_id() < i32::MAX,
    ensures
        allocates(*old(ids), *final(ids), r.1.spec_tag()),
        r.0.spec_tag() == r.1.spec_tag(),
{
    let (tx, rx) = unbounded();
    let tag = ids.allocate();
    let link = Link::unbound();
    let sender = Sender {
        cache: RwLock::new(Resolution::Unresolved, Ghost(AnyValue)),
        link: link.share(),
        tx,
        tag,
    };
    (sender, Receiver { link, rx, tag })
}

impl<T> Sender<T> {
    /// The identifier of the channel.
    pub closed spec fn spec_tag(&self) -> int {
        self.tag.spec_value()
    }

    /// Queues `data`, then announces the channel to its readiness target. The
    /// target is looked up on this handle's first send and kept after that.
    /// Only the queueing decides the result: an announcement that cannot be
    /// delivered is dropped.
    pub fn send(&self, data: T) -> (r: Result<(), SendError<T>>)
        ensures
            r matches Err(e) ==> e.0 == data,
    {
        let (cache, handle) = self.cache.acquire_write();
        let target = cache.target(&self.link);
        let result = push(&self.tx, data);
        match &target {
            Some(ready) => {
                let _ = push(ready, self.tag);
            },
            None => {},
        }
        handle.release_write(Resolution::Resolved(target));
        result
    }
}

impl<T> Clone for Sender<T> {
    /// A handle on the same queue and link, which looks up its readiness
    /// target afresh at its own first send.
    fn clone(&self) -> (r: Self)
        ensures
            r.spec_tag() == self.spec_tag(),
    {
        Sender {
            cache: RwLock::new(Resolution::Unresolved, Ghost(AnyValue)),
            link: self.link.share(),
            tx: clone_sender(&self.tx),
            tag: self.tag,
        }
    }
}

impl<T> Receiver<T> {
    /// The identifier of the channel.
    pub closed spec fn spec_tag(&self) -> int {
        self.tag.spec_value()
    }

    /// The identifier of the channel.
    pub fn tag(&self) -> (r: i32)
        ensures
            r == self.spec_tag(),
            r >= 0,
    {
        self.tag.value()
    }

    /// The identifier of the channel.
    pub fn id(&self) -> (r: i32)
        ensures
            r == self.spec_tag(),
            r >= 0,
    {
        self.tag.value()
    }

    /// Waits for the next value; fails once the queue is empty and every
    /// sender is gone.
    pub fn recv(&self) -> Result<T, RecvError> {
        pull(&self.rx)
    }

    /// Waits at most `timeout` for the next value.
    pub fn recv_timeout(&self, timeout: Duration) -> Result<T, RecvTimeoutError> {
        pull_timeout(&self.rx, timeout)
    }

    /// Takes the next value if one is queued now.
    pub fn try_recv(&self) -> Result<T, TryRecvError> {
        try_pull(&self.rx)
    }

    /// The link through which the channel announces readiness.
    pub fn link(&self) -> &Link {
        &self.link
    }

    /// The number of values queued now.
    pub fn len(&self) -> usize {
        queued(&self.rx)
    }
}

} // verus!
