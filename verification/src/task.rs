//! What a poll reports, and the handle by which a parked task is woken.

use vstd::prelude::*;

verus! {

/// The outcome of one poll of an operation.
#[derive(Debug, PartialEq, Eq)]
pub enum Poll<T> {
    /// The operation has finished with this value.
    Ready(T),
    /// The operation cannot finish yet; the task has been parked.
    Pending,
}

impl<T> Poll<T> {
    pub open spec fn spec_is_ready(&self) -> bool {
        self is Ready
    }

    #[verifier::when_used_as_spec(spec_is_ready)]
    pub fn is_ready(&self) -> (ready: bool)
        ensures
            ready == (self is Ready),
    {
        match self {
            Poll::Ready(_) => true,
            Poll::Pending => false,
        }
    }

    pub open spec fn spec_is_pending(&self) -> bool {
        self is Pending
    }

    #[verifier::when_used_as_spec(spec_is_pending)]
    pub fn is_pending(&self) -> (pending: bool)
        ensures
            pending == (self is Pending),
    {
        match self {
            Poll::Ready(_) => false,
            Poll::Pending => true,
        }
    }
}

impl<T> Poll<Option<T>> {
    /// The poll of a stream as the poll of a wait for one item: ready with
    /// the item, pending when the stream is pending or has ended.
    pub open spec fn spec_item(self) -> Poll<T> {
        match self {
            Poll::Ready(Some(item)) => Poll::Ready(item),
            _ => Poll::Pending,
        }
    }

    /// The poll of a stream as the poll of a wait for one item: ready with
    /// the item, pending when the stream is pending or has ended.
    #[verifier::when_used_as_spec(spec_item)]
    pub fn item(self) -> (polled: Poll<T>)
        ensures
            polled == self.spec_item(),
    {
        match self {
            Poll::Ready(Some(item)) => Poll::Ready(item),
            Poll::Ready(None) => Poll::Pending,
            Poll::Pending => Poll::Pending,
        }
    }
}

/// `core::task::Waker`: the handle of a task, as its executor made it.
#[verifier::external_type_specification]
#[verifier::external_body]
pub struct ExWaker(core::task::Waker);

/// `Waker::wake`: hands the task back to its executor and uses the handle up.
///
/// Nothing is claimed of the executor's state.  The call is taken to return:
/// a waker whose `wake` panics is a fault of the executor that made it.
#[verifier::external_body]
pub(crate) fn wake(waker: core::task::Waker)
    opens_invariants none
    no_unwind
{
    waker.wake()
}

/// `Waker::wake_by_ref`: as `wake`, but the handle stays with the caller.
#[verifier::external_body]
pub(crate) fn wake_by_ref(waker: &core::task::Waker) {
    waker.wake_by_ref()
}

/// `Waker::clone`: a second handle of the same task.
#[verifier::external_body]
pub(crate) fn another(waker: &core::task::Waker) -> (copy: core::task::Waker) {
    waker.clone()
}

} // verus!
