//! An asynchronous bounded queue for one producer and one consumer.

use vstd::prelude::*;
use crate::notify::Listener;
use crate::notify::Notify;
use crate::store::spsc;
use crate::store::spsc::Queue;
use crate::store::spsc::RecvEnd;
use crate::store::spsc::SendEnd;
use crate::task;
use crate::task::Poll;

pub mod heap;

verus! {

/// A first-in, first-out queue of at most `N` values with one sending and
/// one receiving end.
///
/// Each end is handed out to one holder at a time, so that the queue never
/// has two producers or two consumers.
#[verifier::reject_recursive_types(T)]
pub struct Spsc<T, const N: usize> {
    buf: Queue<T, N>,
    consumer: Notify<1>,
    producer: Notify<1>,
}

impl<T, const N: usize> Spsc<T, N> {
    /// An empty queue with both ends free.
    pub fn new() -> (spsc: Self) {
        Spsc { buf: spsc::empty(), consumer: Notify::new(), producer: Notify::new() }
    }

    /// The sending end, if nobody holds it.
    pub fn take_sender(&self) -> (sender: Option<Sender<'_, T, N>>)
        ensures
            sender matches Some(s) ==> s.spsc() == self,
    {
        match spsc::take_sender(&self.buf) {
            Some(sender) => Some(Sender { parent: self, sender }),
            None => None,
        }
    }

    /// The receiving end, if nobody holds it.
    pub fn take_recver(&self) -> (recver: Option<Receiver<'_, T, N>>)
        ensures
            recver matches Some(r) ==> r.spsc() == self,
    {
        match spsc::take_recver(&self.buf) {
            Some(recver) => Some(Receiver { parent: self, recver }),
            None => None,
        }
    }
}

/// The sending end of an `Spsc`.
#[verifier::reject_recursive_types(T)]
pub struct Sender<'a, T, const N: usize> {
    parent: &'a Spsc<T, N>,
    sender: SendEnd<'a, T, N>,
}

impl<'a, T, const N: usize> Sender<'a, T, N> {
    /// The queue that this is the sending end of.
    pub closed spec fn spsc(&self) -> &'a Spsc<T, N> {
        self.parent
    }

    /// Tries to append `val`, and on success notifies the consumer.
    ///
    /// If the queue is full, `val` is handed back.
    pub fn try_send(&mut self, val: T) -> (sent: Result<(), T>)
        ensures
            sent matches Err(back) ==> back == val,
            final(self).spsc() == old(self).spsc(),
    {
        self.parent.producer.notify_if_ok(spsc::try_send(&mut self.sender, val))
    }

    /// A listener on the consumer's events, for a wait to send.
    pub(crate) fn room(&self) -> (wait_c: Listener<'a, 1>)
        ensures
            !wait_c.is_registered(),
    {
        self.parent.consumer.listen()
    }

    /// A wait to append `val`, which lasts until the queue has taken it.
    pub fn send<'b>(&'b mut self, val: T) -> (wait: Sending<'b, 'a, T, N>)
        ensures
            wait.value() == Some(val),
            wait.spsc() == old(self).spsc(),
    {
        let wait_c = self.room();
        Sending { sender: self, wait_c, val: Some(val) }
    }

    /// Takes the queue's answer to a try into `val`.  A value that went in
    /// leaves `val` empty; a value that was handed back is kept there for
    /// the next try.  Returns whether the value went in.
    pub fn settle(val: &mut Option<T>, sent: Result<(), T>) -> (over: bool)
        ensures
            over == (sent is Ok),
            *final(val) == (match sent {
                Ok(_) => None::<T>,
                Err(back) => Some(back),
            }),
    {
        match sent {
            Ok(_) => {
                *val = None;
                true
            },
            Err(back) => {
                *val = Some(back);
                false
            },
        }
    }

    /// One poll of a wait to append the value in `val`, which must be
    /// there, with `wait_c` listening to the consumer's events.
    ///
    /// The queue is tried first.  If it is full the task is parked and, if
    /// an event has arrived meanwhile, tries again.  While the result is
    /// `Pending` the value stays in `val`, unchanged; `Ready` says that the
    /// queue took it, and `val` is empty.
    pub fn poll_send(
        &mut self,
        wait_c: &mut Listener<'a, 1>,
        val: &mut Option<T>,
        waker: &core::task::Waker,
    ) -> (polled: Poll<()>)
        requires
            *old(val) is Some,
        ensures
            final(self).spsc() == old(self).spsc(),
            polled is Pending ==> *final(val) == *old(val),
            polled is Ready ==> *final(val) is None,
    {
        let mut turns: usize = 0;
        while turns < usize::MAX
            invariant
                self.spsc() == old(self).spsc(),
                *val == *old(val),
                *val is Some,
            decreases usize::MAX - turns,
        {
            let v = val.take().unwrap();
            let sent = self.try_send(v);
            if Self::settle(val, sent) {
                return Poll::Ready(());
            }
            if wait_c.poll_next(waker).is_pending() {
                return Poll::Pending;
            }
            turns = turns + 1;
        }
        task::wake_by_ref(waker);
        Poll::Pending
    }
}

/// The wait that `Sender::send` starts.  It holds the value until the queue
/// has taken it.
#[verifier::reject_recursive_types(T)]
pub struct Sending<'b, 'a, T, const N: usize> {
    sender: &'b mut Sender<'a, T, N>,
    wait_c: Listener<'a, 1>,
    val: Option<T>,
}

impl<'b, 'a, T, const N: usize> Sending<'b, 'a, T, N> {
    /// The queue that is waited on.
    pub closed spec fn spsc(&self) -> &'a Spsc<T, N> {
        self.sender.parent
    }

    /// The value still to be appended; `None` once the wait is over.
    pub closed spec fn value(&self) -> Option<T> {
        self.val
    }

    /// Whether the wait is over.
    pub fn is_terminated(&self) -> (over: bool)
        ensures
            over == (self.value() is None),
    {
        self.val.is_none()
    }

    /// One poll of the wait, which must not be over yet: `poll_send` on
    /// what the wait holds.
    pub fn poll(&mut self, waker: &core::task::Waker) -> (polled: Poll<()>)
        requires
            old(self).value() is Some,
        ensures
            final(self).spsc() == old(self).spsc(),
            polled is Pending ==> final(self).value() == old(self).value(),
            polled is Ready ==> final(self).value() is None,
    {
        self.sender.poll_send(&mut self.wait_c, &mut self.val, waker)
    }
}

/// The receiving end of an `Spsc`.
#[verifier::reject_recursive_types(T)]
pub struct Receiver<'a, T, const N: usize> {
    parent: &'a Spsc<T, N>,
    recver: RecvEnd<'a, T, N>,
}

impl<'a, T, const N: usize> Receiver<'a, T, N> {
    /// The queue that this is the receiving end of.
    pub closed spec fn spsc(&self) -> &'a Spsc<T, N> {
        self.parent
    }

    /// Tries to remove the first value, and on success notifies the
    /// producer.  `None` if the queue is empty.
    pub fn try_recv(&mut self) -> (got: Option<T>)
        ensures
            final(self).spsc() == old(self).spsc(),
    {
        self.parent.consumer.notify_if_some(spsc::try_recv(&mut self.recver))
    }

    /// A listener on the producer's events, for a wait to receive.
    pub(crate) fn news(&self) -> (wait_p: Listener<'a, 1>)
        ensures
            !wait_p.is_registered(),
    {
        self.parent.producer.listen()
    }

    /// A wait to remove the first value, which lasts until there is one.
    pub fn recv<'b>(&'b mut self) -> (wait: Receiving<'b, 'a, T, N>)
        ensures
            wait.spsc() == old(self).spsc(),
    {
        let wait_p = self.news();
        Receiving { recver: self, wait_p }
    }

    /// What a wait makes of the queue's answer to a try: a value that the
    /// queue gave up makes the wait ready with it, as it is; none leaves it
    /// pending for the moment.
    pub fn settle(got: Option<T>) -> (polled: Poll<T>)
        ensures
            polled == (match got {
                Some(value) => Poll::Ready(value),
                None => Poll::Pending,
            }),
    {
        match got {
            Some(value) => Poll::Ready(value),
            None => Poll::Pending,
        }
    }

    /// One poll of a wait to remove the first value, with `wait_p`
    /// listening to the producer's events.
    ///
    /// The queue is tried first.  If it is empty the task is parked and, if
    /// an event has arrived meanwhile, tries again.
    pub fn poll_recv(&mut self, wait_p: &mut Listener<'a, 1>, waker: &core::task::Waker) -> (polled: Poll<T>)
        ensures
            final(self).spsc() == old(self).spsc(),
    {
        let mut turns: usize = 0;
        while turns < usize::MAX
            invariant
                self.spsc() == old(self).spsc(),
            decreases usize::MAX - turns,
        {
            match Self::settle(self.try_recv()) {
                Poll::Ready(value) => {
                    return Poll::Ready(value);
                },
                Poll::Pending => {
                    if wait_p.poll_next(waker).is_pending() {
                        return Poll::Pending;
                    }
                },
            }
            turns = turns + 1;
        }
        task::wake_by_ref(waker);
        Poll::Pending
    }
}

/// The wait that `Receiver::recv` starts.
#[verifier::reject_recursive_types(T)]
pub struct Receiving<'b, 'a, T, const N: usize> {
    recver: &'b mut Receiver<'a, T, N>,
    wait_p: Listener<'a, 1>,
}

impl<'b, 'a, T, const N: usize> Receiving<'b, 'a, T, N> {
    /// The queue that is waited on.
    pub closed spec fn spsc(&self) -> &'a Spsc<T, N> {
        self.recver.parent
    }

    /// One poll of the wait: `poll_recv` on what the wait holds.
    pub fn poll(&mut self, waker: &core::task::Waker) -> (polled: Poll<T>)
        ensures
            final(self).spsc() == old(self).spsc(),
    {
        self.recver.poll_recv(&mut self.wait_p, waker)
    }
}

} // verus!
