//! The fixed array of slots of `ach_array`.

use vstd::prelude::*;
use crate::error::Error;
use crate::store::cell::Hold;

verus! {

/// `ach_array::Array`: `N` slots, each one an `ach_cell::Cell`.
#[verifier::external_type_specification]
#[verifier::external_body]
#[verifier::reject_recursive_types(T)]
pub struct ExArray<T, const N: usize>(ach_array::Array<T, N>);

/// `ach_array::ArrayIterator`: a walk over the slots in ascending order
/// that hands out a reference to each value it can read.
#[verifier::external_type_specification]
#[verifier::external_body]
#[verifier::reject_recursive_types(T)]
pub struct ExArrayIterator<'a, T, const N: usize>(ach_array::ArrayIterator<'a, T, N>);

/// `Array::new`: `N` empty slots.
#[verifier::external_body]
pub(crate) fn empty<T, const N: usize>() -> (slots: ach_array::Array<T, N>) {
    ach_array::Array::new()
}

/// `Array::pop`: empties the first slot, in ascending order, that gives up
/// a value, and hands that value out; `None` if no slot did.
#[verifier::external_body]
pub(crate) fn pop<T, const N: usize>(slots: &ach_array::Array<T, N>) -> (held: Option<T>)
    opens_invariants none
    no_unwind
{
    slots.pop()
}

/// `Cell::try_replace` on slot `index`: puts `value` there and hands out
/// what the slot held.  A refusal carries `value` back.
#[verifier::external_body]
pub(crate) fn try_replace_at<T, const N: usize>(
    slots: &ach_array::Array<T, N>,
    index: usize,
    value: T,
) -> (before: Result<Option<T>, Error<T>>)
    requires
        index < N,
    ensures
        before matches Err(e) ==> e.input == value,
{
    match slots[index].try_replace(value) {
        Ok(held) => Ok(held),
        Err(e) => Err(Error { state: e.state, input: e.input, retry: e.retry }),
    }
}

/// `Cell::get` on slot `index`: a counted reference to the value there.  It
/// waits out another task's step in progress, and is refused on a slot that
/// has no readable value.
#[verifier::external_body]
pub(crate) fn get_at<T, const N: usize>(slots: &ach_array::Array<T, N>, index: usize) -> (got: Result<
    Hold<'_, T>,
    Error<()>,
>)
    requires
        index < N,
    opens_invariants none
    no_unwind
{
    match slots[index].get() {
        Ok(inner) => Ok(Hold { inner }),
        Err(e) => Err(Error { state: e.state, input: e.input, retry: e.retry }),
    }
}

/// `Array::iter`, not strict: a walk that passes over the slots it cannot
/// read at once.
#[verifier::external_body]
pub(crate) fn iter<T, const N: usize>(slots: &ach_array::Array<T, N>) -> (walk: ach_array::ArrayIterator<
    '_,
    T,
    N,
>) {
    slots.iter(false)
}

/// `ArrayIterator::next`: a reference to the value in the next slot that
/// can be read, or `None` when the walk has passed the last slot.
#[verifier::external_body]
pub(crate) fn next<'a, T, const N: usize>(walk: &mut ach_array::ArrayIterator<'a, T, N>) -> (got: Option<
    Hold<'a, T>,
>) {
    match walk.next() {
        Some(inner) => Some(Hold { inner }),
        None => None,
    }
}

} // verus!
