//! The single-producer, single-consumer queue of `ach_spsc`.

use vstd::prelude::*;

verus! {

/// `ach_spsc::heapless::Spsc`: a first-in, first-out queue of at most `N`
/// values with one sending end and one receiving end.
#[verifier::external_body]
#[verifier::reject_recursive_types(T)]
pub struct Queue<T, const N: usize> {
    pub(crate) inner: ach_spsc::heapless::Spsc<T, N>,
}

/// `ach_spsc::heapless::Sender`: the sending end, while it is taken.
/// Dropping it gives it back to the queue.
#[verifier::external_body]
#[verifier::reject_recursive_types(T)]
pub struct SendEnd<'a, T, const N: usize> {
    pub(crate) inner: ach_spsc::heapless::Sender<'a, T, N>,
}

/// `ach_spsc::heapless::Receiver`: the receiving end, while it is taken.
/// Dropping it gives it back to the queue.
#[verifier::external_body]
#[verifier::reject_recursive_types(T)]
pub struct RecvEnd<'a, T, const N: usize> {
    pub(crate) inner: ach_spsc::heapless::Receiver<'a, T, N>,
}

/// `Spsc::new`: an empty queue with both ends free.
#[verifier::external_body]
pub(crate) fn empty<T, const N: usize>() -> (queue: Queue<T, N>) {
    Queue { inner: ach_spsc::heapless::Spsc::new() }
}

/// `Spsc::take_sender`: the sending end, if nobody holds it.
#[verifier::external_body]
pub(crate) fn take_sender<T, const N: usize>(queue: &Queue<T, N>) -> (end: Option<SendEnd<'_, T, N>>) {
    match queue.inner.take_sender() {
        Some(inner) => Some(SendEnd { inner }),
        None => None,
    }
}

/// `Spsc::take_recver`: the receiving end, if nobody holds it.
#[verifier::external_body]
pub(crate) fn take_recver<T, const N: usize>(queue: &Queue<T, N>) -> (end: Option<RecvEnd<'_, T, N>>) {
    match queue.inner.take_recver() {
        Some(inner) => Some(RecvEnd { inner }),
        None => None,
    }
}

/// `Sender::try_send`: appends `value`, or hands it back if the queue is
/// full.
#[verifier::external_body]
pub(crate) fn try_send<T, const N: usize>(end: &mut SendEnd<'_, T, N>, value: T) -> (sent: Result<(), T>)
    ensures
        sent matches Err(back) ==> back == value,
{
    end.inner.try_send(value)
}

/// `Receiver::try_recv`: removes the first value and hands it out, or
/// `None` if the queue is empty.
#[verifier::external_body]
pub(crate) fn try_recv<T, const N: usize>(end: &mut RecvEnd<'_, T, N>) -> (got: Option<T>) {
    end.inner.try_recv()
}

} // verus!
