//! The single-producer, single-consumer queue behind shared ownership.

use vstd::prelude::*;
use std::sync::Arc;
use crate::notify::Listener;
use crate::spsc;
use crate::spsc::Spsc;
use crate::task;
use crate::task::Poll;

verus! {

/// The sending half of a `channel`.
#[verifier::reject_recursive_types(T)]
pub struct Sender<T, const N: usize> {
    tx: Arc<Spsc<T, N>>,
}

impl<T, const N: usize> Sender<T, N> {
    /// The queue that this half sends into.
    pub closed spec fn queue(&self) -> Arc<Spsc<T, N>> {
        self.tx
    }

    /// Tries to append `val`.  If the queue is full, `val` is handed back.
    pub fn try_send(&mut self, val: T) -> (sent: Result<(), T>)
        ensures
            sent matches Err(back) ==> back == val,
    {
        match self.tx.take_sender() {
            Some(mut end) => end.try_send(val),
            None => Err(val),
        }
    }

    /// A wait to append `val`, which lasts until the queue has taken it.
    pub fn send(&mut self, val: T) -> (wait: Sending<'_, T, N>)
        ensures
            wait.value() == Some(val),
            wait.queue() == old(self).queue(),
    {
        Sending { tx: &self.tx, end: None, val: Some(val) }
    }
}

/// The wait that `Sender::send` starts.  It holds the value until the queue
/// has taken it, and the queue's sending end from its first poll on.
#[verifier::reject_recursive_types(T)]
pub struct Sending<'b, T, const N: usize> {
    tx: &'b Arc<Spsc<T, N>>,
    end: Option<(spsc::Sender<'b, T, N>, Listener<'b, 1>)>,
    val: Option<T>,
}

impl<'b, T, const N: usize> Sending<'b, T, N> {
    /// The queue that is waited on.
    pub closed spec fn queue(&self) -> Arc<Spsc<T, N>> {
        *self.tx
    }

    /// The value still to be appended; `None` once the wait is over.
    pub closed spec fn value(&self) -> Option<T> {
        self.val
    }

    /// Whether the wait is over.
    pub fn is_terminated(&self) -> (over: bool)
        ensures
            over == (self.value() is None),
    {
        self.val.is_none()
    }

    /// One poll of the wait.  It must not be over yet.
    ///
    /// While the result is `Pending` the wait keeps its value, unchanged;
    /// `Ready` says that the queue took it.
    pub fn poll(&mut self, waker: &core::task::Waker) -> (polled: Poll<()>)
        requires
            old(self).value() is Some,
        ensures
            final(self).queue() == old(self).queue(),
            polled is Pending ==> final(self).value() == old(self).value(),
            polled is Ready ==> final(self).value() is None,
    {
        if self.end.is_none() {
            match self.tx.take_sender() {
                Some(end) => {
                    let wait_c = end.room();
                    self.end = Some((end, wait_c));
                },
                None => {},
            }
        }
        match &mut self.end {
            Some((end, wait_c)) => end.poll_send(wait_c, &mut self.val, waker),
            None => {
                task::wake_by_ref(waker);
                Poll::Pending
            },
        }
    }
}

/// The receiving half of a `channel`.
#[verifier::reject_recursive_types(T)]
pub struct Receiver<T, const N: usize> {
    rx: Arc<Spsc<T, N>>,
}

impl<T, const N: usize> Receiver<T, N> {
    /// The queue that this half receives from.
    pub closed spec fn queue(&self) -> Arc<Spsc<T, N>> {
        self.rx
    }

    /// Tries to remove the first value.  `None` if the queue is empty.
    pub fn try_recv(&mut self) -> (got: Option<T>) {
        match self.rx.take_recver() {
            Some(mut end) => end.try_recv(),
            None => None,
        }
    }

    /// A wait to remove the first value, which lasts until there is one.
    pub fn recv(&mut self) -> (wait: Receiving<'_, T, N>)
        ensures
            wait.queue() == old(self).queue(),
    {
        Receiving { rx: &self.rx, end: None }
    }
}

/// The wait that `Receiver::recv` starts.  It holds the queue's receiving
/// end from its first poll on.
#[verifier::reject_recursive_types(T)]
pub struct Receiving<'b, T, const N: usize> {
    rx: &'b Arc<Spsc<T, N>>,
    end: Option<(spsc::Receiver<'b, T, N>, Listener<'b, 1>)>,
}

impl<'b, T, const N: usize> Receiving<'b, T, N> {
    /// The queue that is waited on.
    pub closed spec fn queue(&self) -> Arc<Spsc<T, N>> {
        *self.rx
    }

    /// One poll of the wait.
    pub fn poll(&mut self, waker: &core::task::Waker) -> (polled: Poll<T>)
        ensures
            final(self).queue() == old(self).queue(),
    {
        if self.end.is_none() {
            match self.rx.take_recver() {
                Some(end) => {
                    let wait_p = end.news();
                    self.end = Some((end, wait_p));
                },
                None => {},
            }
        }
        match &mut self.end {
            Some((end, wait_p)) => end.poll_recv(wait_p, waker),
            None => {
                task::wake_by_ref(waker);
                Poll::Pending
            },
        }
    }
}

/// A queue of at most `N` values, as its two halves: what one half sends,
/// the other receives.
pub fn channel<T, const N: usize>() -> (halves: (Sender<T, N>, Receiver<T, N>))
    ensures
        halves.0.queue() == halves.1.queue(),
{
    let tx = Arc::new(Spsc::new());
    let rx = tx.clone();
    (Sender { tx }, Receiver { rx })
}

} // verus!
