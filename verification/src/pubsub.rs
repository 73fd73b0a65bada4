//! One publisher, many subscribers: every value sent goes into each
//! subscriber's own queue.

use vstd::prelude::*;
use crate::error::Error;
use crate::notify::Listener;
use crate::notify::Notify;
use crate::store::pubsub;
use crate::store::pubsub::Feed;
use crate::store::pubsub::Hub;
use crate::task;
use crate::task::Poll;

pub mod heap;
pub mod heapless;

verus! {

/// One subscription to a `Publisher`.
#[verifier::reject_recursive_types(T)]
pub struct Subscriber<'a, T, const N: usize, const MP: usize, const MC: usize> {
    parent: &'a Publisher<T, N, MP, MC>,
    ch: Feed<'a, T, N>,
}

impl<'a, T, const N: usize, const MP: usize, const MC: usize> Subscriber<'a, T, N, MP, MC> {
    /// The publisher that is subscribed to.
    pub closed spec fn publisher(&self) -> &'a Publisher<T, N, MP, MC> {
        self.parent
    }

    /// Tries to remove the first value of this subscriber's queue, and on
    /// success notifies the publisher's side.
    ///
    /// It is refused if the queue is empty; the refusal is never transient.
    pub fn try_recv(&self) -> (got: Result<T, Error<()>>)
        ensures
            got matches Err(e) ==> !e.retry,
    {
        self.parent.consumer.notify_if_ok(pubsub::try_recv(&self.ch))
    }

    /// A wait for the next value of this subscriber's queue.
    pub fn recv<'b>(&'b self) -> (wait: Recv<'a, 'b, T, N, MP, MC>)
        ensures
            wait.subscriber() == self,
    {
        Recv { parent: self, wait: self.parent.producer.listen() }
    }
}

/// The wait that `Subscriber::recv` starts.
#[verifier::reject_recursive_types(T)]
pub struct Recv<'a, 'b, T, const N: usize, const MP: usize, const MC: usize> {
    parent: &'b Subscriber<'a, T, N, MP, MC>,
    wait: Listener<'a, MC>,
}

impl<'a, 'b, T, const N: usize, const MP: usize, const MC: usize> Recv<'a, 'b, T, N, MP, MC> {
    /// The subscription that is waited on.
    pub closed spec fn subscriber(&self) -> &'b Subscriber<'a, T, N, MP, MC> {
        self.parent
    }

    /// What the wait makes of the queue's answer to a try: a value that the
    /// queue gave up is the next item of the stream, as it is; a refusal is
    /// no item, and the wait goes on.
    pub fn settle(got: Result<T, Error<()>>) -> (item: Option<Option<T>>)
        ensures
            item == (match got {
                Ok(data) => Some(Some(data)),
                Err(_) => None,
            }),
    {
        match got {
            Ok(data) => Some(Some(data)),
            Err(_) => None,
        }
    }

    /// One poll of the wait, as a stream of values.
    ///
    /// The queue is tried; if it is empty the task is parked on the
    /// publisher's events and the queue is tried once more.  If it is still
    /// empty and an event had arrived, all of this is done again: the
    /// result is `Pending` only when the task is parked.  The stream never
    /// ends: what is ready is always a value.
    pub fn poll_next(&mut self, waker: &core::task::Waker) -> (polled: Poll<Option<T>>)
        ensures
            final(self).subscriber() == old(self).subscriber(),
            polled matches Poll::Ready(item) ==> item is Some,
    {
        let mut turns: usize = 0;
        while turns < usize::MAX
            invariant
                self.subscriber() == old(self).subscriber(),
            decreases usize::MAX - turns,
        {
            match Self::settle(self.parent.try_recv()) {
                Some(item) => {
                    return Poll::Ready(item);
                },
                None => {},
            }
            let parked = self.wait.poll_next(waker).is_pending();
            match Self::settle(self.parent.try_recv()) {
                Some(item) => {
                    return Poll::Ready(item);
                },
                None => {},
            }
            if parked {
                return Poll::Pending;
            }
            turns = turns + 1;
        }
        task::wake_by_ref(waker);
        Poll::Pending
    }

    /// One poll of the wait for a single value: `poll_next`, with the value
    /// as the whole result.
    pub fn poll(&mut self, waker: &core::task::Waker) -> (polled: Poll<T>)
        ensures
            final(self).subscriber() == old(self).subscriber(),
    {
        self.poll_next(waker).item()
    }
}

/// A publisher for at most `MC` subscribers, each with a queue of at most
/// `N` values.
///
/// `producer` carries the publisher's events for the subscribers that wait;
/// `consumer` carries the subscribers' events.
#[verifier::reject_recursive_types(T)]
pub struct Publisher<T, const N: usize, const MP: usize, const MC: usize> {
    ch: Hub<T, N, MC>,
    consumer: Notify<MP>,
    producer: Notify<MC>,
}

impl<T, const N: usize, const MP: usize, const MC: usize> Publisher<T, N, MP, MC> {
    /// A publisher without subscribers.  A `strict` one waits, when it
    /// sends, for each subscriber's queue to be ready for the value.
    pub fn new(strict: bool) -> (publisher: Self) {
        Publisher { ch: pubsub::hub(strict), consumer: Notify::new(), producer: Notify::new() }
    }

    /// A new subscription, or `None` if there are `MC` already.
    pub fn subscribe(&self) -> (sub: Option<Subscriber<'_, T, N, MP, MC>>)
        ensures
            sub matches Some(s) ==> s.publisher() == self,
    {
        match pubsub::subscribe(&self.ch) {
            Some(sub) => Some(Subscriber { parent: self, ch: sub }),
            None => None,
        }
    }
}

impl<T: Clone, const N: usize, const MP: usize, const MC: usize> Publisher<T, N, MP, MC> {
    /// Sends `val` to every subscriber and, if any took it, wakes all the
    /// subscribers that wait.  Returns the number of subscribers that took
    /// it, which is never more than `MC`.
    pub fn send(&self, val: T) -> (num: usize)
        ensures
            num <= MC,
    {
        self.producer.notify_waiters_if_any(pubsub::send(&self.ch, val))
    }
}

} // verus!
