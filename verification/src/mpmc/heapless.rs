//! Handles that borrow the queue.

use vstd::prelude::*;
use crate::error::Error;
use crate::ring::Pop;
use crate::ring::Push;
use crate::ring::Ring;

verus! {

/// A handle that sends into an `Mpmc`.
#[verifier::reject_recursive_types(T)]
pub struct Sender<'a, T, const N: usize, const MP: usize, const MC: usize> {
    mpmc: &'a Mpmc<T, N, MP, MC>,
}

impl<'a, T, const N: usize, const MP: usize, const MC: usize> Sender<'a, T, N, MP, MC> {
    /// The channel that the handle sends into.
    pub closed spec fn channel(&self) -> &'a Mpmc<T, N, MP, MC> {
        self.mpmc
    }

    fn new(mpmc: &'a Mpmc<T, N, MP, MC>) -> (sender: Self)
        ensures
            sender.channel() == mpmc,
    {
        Sender { mpmc }
    }

    /// Tries to append `t` to the queue.  It is refused, and `t` handed
    /// back, if the queue is full.
    pub fn try_send(&self, t: T) -> (sent: Result<(), Error<T>>)
        ensures
            sent matches Err(e) ==> e.input == t,
    {
        self.mpmc.ring.try_push(t)
    }

    /// A wait to append `t`, which lasts until the queue has taken it.
    pub fn send(&self, t: T) -> (wait: Push<'a, T, N, MP, MC>)
        ensures
            wait.ring() == self.channel().queue(),
            wait.value() == Some(t),
    {
        self.mpmc.ring.push(t)
    }
}

/// A handle that receives from an `Mpmc`.
#[verifier::reject_recursive_types(T)]
pub struct Receiver<'a, T, const N: usize, const MP: usize, const MC: usize> {
    mpmc: &'a Mpmc<T, N, MP, MC>,
}

impl<'a, T, const N: usize, const MP: usize, const MC: usize> Receiver<'a, T, N, MP, MC> {
    /// The channel that the handle receives from.
    pub closed spec fn channel(&self) -> &'a Mpmc<T, N, MP, MC> {
        self.mpmc
    }

    fn new(mpmc: &'a Mpmc<T, N, MP, MC>) -> (recver: Self)
        ensures
            recver.channel() == mpmc,
    {
        Receiver { mpmc }
    }

    /// Tries to remove the first value of the queue.  It is refused if the
    /// queue is empty.
    pub fn try_recv(&self) -> (got: Result<T, Error<()>>) {
        self.mpmc.ring.try_pop()
    }

    /// A wait to remove the first value, which lasts until there is one.
    pub fn recv(&self) -> (wait: Pop<'a, T, N, MP, MC>)
        ensures
            wait.ring() == self.channel().queue(),
    {
        self.mpmc.ring.pop()
    }
}

/// A queue of at most `N` values that hands out sending and receiving
/// handles.
#[verifier::reject_recursive_types(T)]
pub struct Mpmc<T, const N: usize, const MP: usize, const MC: usize> {
    ring: Ring<T, N, MP, MC>,
}

impl<T, const N: usize, const MP: usize, const MC: usize> Mpmc<T, N, MP, MC> {
    /// The queue behind the channel.
    pub closed spec fn queue(&self) -> &Ring<T, N, MP, MC> {
        &self.ring
    }

    /// An empty channel.
    pub fn new() -> (mpmc: Self) {
        Mpmc { ring: Ring::new() }
    }

    /// A handle that sends into this channel.
    pub fn sender(&self) -> (sender: Sender<'_, T, N, MP, MC>)
        ensures
            sender.channel() == self,
    {
        Sender::new(self)
    }

    /// A handle that receives from this channel.
    pub fn recver(&self) -> (recver: Receiver<'_, T, N, MP, MC>)
        ensures
            recver.channel() == self,
    {
        Receiver::new(self)
    }
}

impl<T, const N: usize, const MP: usize, const MC: usize> core::ops::Deref for Mpmc<T, N, MP, MC> {
    type Target = Ring<T, N, MP, MC>;

    fn deref(&self) -> (ring: &Ring<T, N, MP, MC>)
        ensures
            ring == self.queue(),
    {
        &self.ring
    }
}

} // verus!
