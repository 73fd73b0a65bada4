//! An asynchronous bounded queue for many producers and many consumers.

use vstd::prelude::*;
use crate::error::Error;
use crate::notify::Listener;
use crate::notify::Notify;
use crate::store::ring;
use crate::store::ring::Buffer;
use crate::task;
use crate::task::Poll;

verus! {

/// A first-in, first-out queue of at most `N` values.
///
/// `producer` carries the events made by producers, for the consumers that
/// wait for a value (at most `MC` parked); `consumer` carries the events
/// made by consumers, for the producers that wait for room (at most `MP`
/// parked).
#[verifier::reject_recursive_types(T)]
pub struct Ring<T, const N: usize, const MP: usize, const MC: usize> {
    buf: Buffer<T, N>,
    consumer: Notify<MP>,
    producer: Notify<MC>,
}

impl<T, const N: usize, const MP: usize, const MC: usize> Ring<T, N, MP, MC> {
    /// An empty queue.
    pub fn new() -> (ring: Self) {
        Ring { buf: ring::empty(), consumer: Notify::new(), producer: Notify::new() }
    }

    /// The number of values in the queue when it was looked at.
    pub fn len(&self) -> (len: usize) {
        ring::len(&self.buf)
    }

    /// Tries to append `val`, and on success notifies one consumer.
    ///
    /// It is refused, and `val` handed back, if the queue is full.
    pub fn try_push(&self, val: T) -> (pushed: Result<(), Error<T>>)
        ensures
            pushed matches Err(e) ==> e.input == val,
    {
        self.producer.notify_if_ok(ring::push(&self.buf, val))
    }

    /// A wait to append `val`, which lasts until the queue has taken it.
    pub fn push(&self, val: T) -> (wait: Push<'_, T, N, MP, MC>)
        ensures
            wait.ring() == self,
            wait.value() == Some(val),
    {
        Push { parent: self, wait_c: self.consumer.listen(), val: Some(val) }
    }

    /// Tries to remove the first value, and on success notifies one
    /// producer.
    ///
    /// It is refused if the queue is empty.
    pub fn try_pop(&self) -> (popped: Result<T, Error<()>>) {
        self.consumer.notify_if_ok(ring::pop(&self.buf))
    }

    /// A wait to remove the first value, which lasts until there is one.
    pub fn pop(&self) -> (wait: Pop<'_, T, N, MP, MC>)
        ensures
            wait.ring() == self,
    {
        Pop { parent: self, wait_p: self.producer.listen() }
    }
}

/// The wait that `Ring::push` starts.  It holds the value until the queue
/// has taken it.
#[verifier::reject_recursive_types(T)]
pub struct Push<'a, T, const N: usize, const MP: usize, const MC: usize> {
    parent: &'a Ring<T, N, MP, MC>,
    wait_c: Listener<'a, MP>,
    val: Option<T>,
}

impl<'a, T, const N: usize, const MP: usize, const MC: usize> Push<'a, T, N, MP, MC> {
    /// The queue that is waited on.
    pub closed spec fn ring(&self) -> &'a Ring<T, N, MP, MC> {
        self.parent
    }

    /// The value still to be appended; `None` once the wait is over.
    pub closed spec fn value(&self) -> Option<T> {
        self.val
    }

    /// Whether the wait is over.
    pub fn is_terminated(&self) -> (over: bool)
        ensures
            over == (self.value() is None),
    {
        self.val.is_none()
    }

    /// Takes the queue's answer to a try.  A value that went in is gone
    /// from the wait, which is then over; a value that was refused is kept
    /// for the next try.  Returns whether the wait is over.
    pub fn settle(&mut self, pushed: Result<(), Error<T>>) -> (over: bool)
        ensures
            final(self).ring() == old(self).ring(),
            over == (pushed is Ok),
            final(self).value() == (match pushed {
                Ok(_) => None::<T>,
                Err(e) => Some(e.input),
            }),
    {
        match pushed {
            Ok(_) => {
                self.val = None;
                true
            },
            Err(e) => {
                self.val = Some(e.input);
                false
            },
        }
    }

    /// One poll of the wait.  It must not be over yet.
    ///
    /// The queue is tried first.  A refusal parks the task on the
    /// consumers' events and, if one has arrived meanwhile, tries again.
    /// While the result is `Pending` the wait keeps its value, unchanged;
    /// `Ready` says that the queue took it.  The value is thus handed to the
    /// queue once, and is never both there and here.
    pub fn poll(&mut self, waker: &core::task::Waker) -> (polled: Poll<()>)
        requires
            old(self).value() is Some,
        ensures
            final(self).ring() == old(self).ring(),
            polled is Pending ==> final(self).value() == old(self).value(),
            polled is Ready ==> final(self).value() is None,
    {
        let mut turns: usize = 0;
        while turns < usize::MAX
            invariant
                self.ring() == old(self).ring(),
                self.value() == old(self).value(),
                self.value() is Some,
            decreases usize::MAX - turns,
        {
            let val = self.val.take().unwrap();
            let pushed = self.parent.try_push(val);
            if self.settle(pushed) {
                return Poll::Ready(());
            }
            if self.wait_c.poll_next(waker).is_pending() {
                return Poll::Pending;
            }
            turns = turns + 1;
        }
        task::wake_by_ref(waker);
        Poll::Pending
    }
}

/// The wait that `Ring::pop` starts.
#[verifier::reject_recursive_types(T)]
pub struct Pop<'a, T, const N: usize, const MP: usize, const MC: usize> {
    parent: &'a Ring<T, N, MP, MC>,
    wait_p: Listener<'a, MC>,
}

impl<'a, T, const N: usize, const MP: usize, const MC: usize> Pop<'a, T, N, MP, MC> {
    /// The queue that is waited on.
    pub closed spec fn ring(&self) -> &'a Ring<T, N, MP, MC> {
        self.parent
    }

    /// What the wait makes of the queue's answer to a try: a value that the
    /// queue gave up is the result of the wait, as it is; a refusal is no
    /// result, and the wait goes on.
    pub fn settle(popped: Result<T, Error<()>>) -> (result: Option<T>)
        ensures
            result == (match popped {
                Ok(value) => Some(value),
                Err(_) => None,
            }),
    {
        match popped {
            Ok(value) => Some(value),
            Err(_) => None,
        }
    }

    /// One poll of the wait.
    ///
    /// The queue is tried first.  A refusal parks the task on the
    /// producers' events and, if one has arrived meanwhile, tries again.
    pub fn poll(&mut self, waker: &core::task::Waker) -> (polled: Poll<T>)
        ensures
            final(self).ring() == old(self).ring(),
    {
        let mut turns: usize = 0;
        while turns < usize::MAX
            invariant
                self.ring() == old(self).ring(),
            decreases usize::MAX - turns,
        {
            match Self::settle(self.parent.try_pop()) {
                Some(value) => {
                    return Poll::Ready(value);
                },
                None => {
                    if self.wait_p.poll_next(waker).is_pending() {
                        return Poll::Pending;
                    }
                },
            }
            turns = turns + 1;
        }
        task::wake_by_ref(waker);
        Poll::Pending
    }
}

} // verus!
