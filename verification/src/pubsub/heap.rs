//! The publisher whose subscribers share the ownership of its queues.

use vstd::prelude::*;
use std::sync::Arc;
use crate::error::Error;
use crate::notify::Listener;
use crate::notify::Notify;
use crate::store::pubsub;
use crate::store::pubsub::SharedFeed;
use crate::store::pubsub::SharedHub;
use crate::task;
use crate::task::Poll;

verus! {

/// One subscription to a `Publisher`.  It outlives the publisher if need
/// be.
#[verifier::reject_recursive_types(T)]
pub struct Subscriber<T, const N: usize, const MC: usize> {
    ch: SharedFeed<T, N, MC>,
    producer: Arc<Notify<MC>>,
}

impl<T, const N: usize, const MC: usize> Subscriber<T, N, MC> {
    /// The publisher's events, which the subscriber waits on.
    pub closed spec fn events(&self) -> Arc<Notify<MC>> {
        self.producer
    }

    /// Tries to remove the first value of this subscriber's queue.
    ///
    /// It is refused if the queue is empty; the refusal is never transient.
    pub fn try_recv(&self) -> (got: Result<T, Error<()>>)
        ensures
            got matches Err(e) ==> !e.retry,
    {
        pubsub::shared_try_recv(&self.ch)
    }

    /// A wait for the next value of this subscriber's queue.
    pub fn recv<'b>(&'b self) -> (wait: Recv<'b, T, N, MC>)
        ensures
            wait.subscriber() == self,
    {
        Recv { parent: self, wait: self.producer.listen() }
    }
}

/// The wait that `Subscriber::recv` starts.
#[verifier::reject_recursive_types(T)]
pub struct Recv<'b, T, const N: usize, const MC: usize> {
    parent: &'b Subscriber<T, N, MC>,
    wait: Listener<'b, MC>,
}

impl<'b, T, const N: usize, const MC: usize> Recv<'b, T, N, MC> {
    /// The subscription that is waited on.
    pub closed spec fn subscriber(&self) -> &'b Subscriber<T, N, MC> {
        self.parent
    }

    /// What the wait makes of the queue's answer to a try: a value that the
    /// queue gave up is the next item of the stream, as it is; a refusal is
    /// no item, and the wait goes on.
    pub fn settle(got: Result<T, Error<()>>) -> (item: Option<Option<T>>)
        ensures
            item == (match got {
                Ok(data) => Some(Some(data)),
                Err(_) => None,
            }),
    {
        match got {
            Ok(data) => Some(Some(data)),
            Err(_) => None,
        }
    }

    /// One poll of the wait, as a stream of values.
    ///
    /// The queue is tried; if it is empty the task is parked on the
    /// publisher's events and the queue is tried once more.  If it is still
    /// empty and an event had arrived, all of this is done again: the
    /// result is `Pending` only when the task is parked.  The stream never
    /// ends: what is ready is always a value.
    pub fn poll_next(&mut self, waker: &core::task::Waker) -> (polled: Poll<Option<T>>)
        ensures
            final(self).subscriber() == old(self).subscriber(),
            polled matches Poll::Ready(item) ==> item is Some,
    {
        let mut turns: usize = 0;
        while turns < usize::MAX
            invariant
                self.subscriber() == old(self).subscriber(),
            decreases usize::MAX - turns,
        {
            match Self::settle(self.parent.try_recv()) {
                Some(item) => {
                    return Poll::Ready(item);
                },
                None => {},
            }
            let parked = self.wait.poll_next(waker).is_pending();
            match Self::settle(self.parent.try_recv()) {
                Some(item) => {
                    return Poll::Ready(item);
                },
                None => {},
            }
            if parked {
                return Poll::Pending;
            }
            turns = turns + 1;
        }
        task::wake_by_ref(waker);
        Poll::Pending
    }

    /// One poll of the wait for a single value: `poll_next`, with the value
    /// as the whole result.
    pub fn poll(&mut self, waker: &core::task::Waker) -> (polled: Poll<T>)
        ensures
            final(self).subscriber() == old(self).subscriber(),
    {
        self.poll_next(waker).item()
    }
}

/// A publisher for at most `MC` subscribers, each with a queue of at most
/// `N` values.
#[verifier::reject_recursive_types(T)]
pub struct Publisher<T, const N: usize, const MC: usize> {
    ch: SharedHub<T, N, MC>,
    producer: Arc<Notify<MC>>,
}

impl<T, const N: usize, const MC: usize> Publisher<T, N, MC> {
    /// The events by which the publisher wakes its subscribers.
    pub closed spec fn events(&self) -> Arc<Notify<MC>> {
        self.producer
    }

    /// A publisher without subscribers.  A `strict` one waits, when it
    /// sends, for each subscriber's queue to be ready for the value.
    pub fn new(strict: bool) -> (publisher: Self) {
        Publisher { ch: pubsub::shared_hub(strict), producer: Arc::new(Notify::new()) }
    }

    /// A new subscription, or `None` if there are `MC` already.
    pub fn subscribe(&self) -> (sub: Option<Subscriber<T, N, MC>>)
        ensures
            sub matches Some(s) ==> s.events() == self.events(),
    {
        match pubsub::shared_subscribe(&self.ch) {
            Some(sub) => Some(Subscriber { ch: sub, producer: self.producer.clone() }),
            None => None,
        }
    }
}

impl<T: Clone, const N: usize, const MC: usize> Publisher<T, N, MC> {
    /// Sends `val` to every subscriber and, if any took it, wakes all the
    /// subscribers that wait.  Returns the number of subscribers that took
    /// it, which is never more than `MC`.
    pub fn send(&self, val: T) -> (num: usize)
        ensures
            num <= MC,
    {
        self.producer.notify_waiters_if_any(pubsub::shared_send(&self.ch, val))
    }
}

} // verus!
