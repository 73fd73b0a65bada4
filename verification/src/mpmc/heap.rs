//! Handles that share the ownership of the queue.

use vstd::prelude::*;
use std::sync::Arc;
use crate::error::Error;
use crate::mpmc::heapless::Mpmc;
use crate::ring::Pop;
use crate::ring::Push;

verus! {

/// A handle that sends into a `channel`.  Its clones send into the same
/// one.
#[derive(Clone)]
#[verifier::reject_recursive_types(T)]
pub struct Sender<T, const N: usize, const MP: usize, const MC: usize> {
    tx: Arc<Mpmc<T, N, MP, MC>>,
}

impl<T, const N: usize, const MP: usize, const MC: usize> Sender<T, N, MP, MC> {
    /// The channel that the handle sends into.
    pub closed spec fn channel(&self) -> Arc<Mpmc<T, N, MP, MC>> {
        self.tx
    }

    /// Tries to append `val` to the queue.  It is refused, and `val` handed
    /// back, if the queue is full.
    pub fn try_send(&self, val: T) -> (sent: Result<(), Error<T>>)
        ensures
            sent matches Err(e) ==> e.input == val,
    {
        self.tx.sender().try_send(val)
    }

    /// A wait to append `val`, which lasts until the queue has taken it.
    pub fn send(&self, val: T) -> (wait: Push<'_, T, N, MP, MC>)
        ensures
            wait.value() == Some(val),
            wait.ring() == self.channel().queue(),
    {
        self.tx.sender().send(val)
    }
}

/// A handle that receives from a `channel`.  Its clones receive from the
/// same one.
#[derive(Clone)]
#[verifier::reject_recursive_types(T)]
pub struct Receiver<T, const N: usize, const MP: usize, const MC: usize> {
    rx: Arc<Mpmc<T, N, MP, MC>>,
}

impl<T, const N: usize, const MP: usize, const MC: usize> Receiver<T, N, MP, MC> {
    /// The channel that the handle receives from.
    pub closed spec fn channel(&self) -> Arc<Mpmc<T, N, MP, MC>> {
        self.rx
    }

    /// Tries to remove the first value of the queue.  It is refused if the
    /// queue is empty.
    pub fn try_recv(&self) -> (got: Result<T, Error<()>>) {
        self.rx.recver().try_recv()
    }

    /// A wait to remove the first value, which lasts until there is one.
    pub fn recv(&self) -> (wait: Pop<'_, T, N, MP, MC>)
        ensures
            wait.ring() == self.channel().queue(),
    {
        self.rx.recver().recv()
    }
}

/// A queue of at most `N` values, as a sending and a receiving handle on
/// it: what the one sends, the other receives.
pub fn channel<T, const N: usize, const MP: usize, const MC: usize>() -> (handles: (
    Sender<T, N, MP, MC>,
    Receiver<T, N, MP, MC>,
))
    ensures
        handles.0.channel() == handles.1.channel(),
{
    let tx = Arc::new(Mpmc::new());
    let rx = tx.clone();
    (Sender { tx }, Receiver { rx })
}

} // verus!
