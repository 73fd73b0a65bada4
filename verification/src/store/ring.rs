//! The bounded lock-free queue of `ach_ring`.

use vstd::prelude::*;
use crate::error::Error;

verus! {

/// `ach_ring::Ring`: a first-in, first-out queue of at most `N` values, for
/// any number of producers and consumers.
#[verifier::external_body]
#[verifier::reject_recursive_types(T)]
pub struct Buffer<T, const N: usize> {
    pub(crate) inner: ach_ring::Ring<T, N>,
}

/// `Ring::new`: an empty queue.
#[verifier::external_body]
pub(crate) fn empty<T, const N: usize>() -> (buf: Buffer<T, N>) {
    Buffer { inner: ach_ring::Ring::new() }
}

/// `Ring::len`: the number of values in the queue when its two ends were
/// read.
#[verifier::external_body]
pub(crate) fn len<T, const N: usize>(buf: &Buffer<T, N>) -> (len: usize) {
    buf.inner.len()
}

/// `Ring::push`: appends `value`.  A refusal carries `value` back and is
/// never transient: the queue is full.
#[verifier::external_body]
pub(crate) fn push<T, const N: usize>(buf: &Buffer<T, N>, value: T) -> (pushed: Result<(), Error<T>>)
    ensures
        pushed matches Err(e) ==> e.input == value && !e.retry,
{
    match buf.inner.push(value) {
        Ok(()) => Ok(()),
        Err(e) => Err(Error { state: e.state, input: e.input, retry: e.retry }),
    }
}

/// `Ring::pop`: removes the first value and hands it out.  A refusal is
/// never transient: the queue is empty.
#[verifier::external_body]
pub(crate) fn pop<T, const N: usize>(buf: &Buffer<T, N>) -> (popped: Result<T, Error<()>>)
    ensures
        popped matches Err(e) ==> !e.retry,
{
    match buf.inner.pop() {
        Ok(value) => Ok(value),
        Err(e) => Err(Error { state: e.state, input: e.input, retry: e.retry }),
    }
}

} // verus!
