//! The reference-counted single slot of `ach_cell`.

use vstd::prelude::*;
use crate::error::Error;

verus! {

/// `ach_cell::Cell`: one slot that holds a value or none, hands out counted
/// references to it, and refuses to change it while references are out.
#[verifier::external_body]
#[verifier::reject_recursive_types(T)]
pub struct Slot<T> {
    pub inner: ach_cell::Cell<T>,
}

/// `ach_cell::Ref`: one counted reference to the value in a slot.  Dropping
/// it gives the count back.
#[verifier::external_body]
#[verifier::reject_recursive_types(T)]
pub struct Hold<'a, T> {
    pub(crate) inner: ach_cell::Ref<'a, T>,
}

/// `Cell::new`: an empty slot.
#[verifier::external_body]
pub(crate) fn empty<T>() -> (slot: Slot<T>) {
    Slot { inner: ach_cell::Cell::new() }
}

/// `Cell::try_get`: a counted reference to the value, or the refusal.
#[verifier::external_body]
pub(crate) fn try_get<T>(slot: &Slot<T>) -> (got: Result<Hold<'_, T>, Error<()>>) {
    match slot.inner.try_get() {
        Ok(inner) => Ok(Hold { inner }),
        Err(e) => Err(Error { state: e.state, input: e.input, retry: e.retry }),
    }
}

/// `Cell::try_set`: fills the slot if it is empty.  A refusal carries
/// `value` back.
#[verifier::external_body]
pub(crate) fn try_set<T>(slot: &Slot<T>, value: T) -> (set: Result<(), Error<T>>)
    ensures
        set matches Err(e) ==> e.input == value,
{
    match slot.inner.try_set(value) {
        Ok(()) => Ok(()),
        Err(e) => Err(Error { state: e.state, input: e.input, retry: e.retry }),
    }
}

/// `Cell::try_take`: empties the slot and hands out what it held.
#[verifier::external_body]
pub(crate) fn try_take<T>(slot: &Slot<T>) -> (taken: Result<Option<T>, Error<()>>) {
    match slot.inner.try_take() {
        Ok(held) => Ok(held),
        Err(e) => Err(Error { state: e.state, input: e.input, retry: e.retry }),
    }
}

/// `Cell::try_replace`: puts `value` into the slot and hands out what it
/// held.  A refusal carries `value` back.
#[verifier::external_body]
pub(crate) fn try_replace<T>(slot: &Slot<T>, value: T) -> (before: Result<Option<T>, Error<T>>)
    ensures
        before matches Err(e) ==> e.input == value,
{
    match slot.inner.try_replace(value) {
        Ok(held) => Ok(held),
        Err(e) => Err(Error { state: e.state, input: e.input, retry: e.retry }),
    }
}

/// `Ref::ref_num`: how many references are out, this one included, or the
/// state of a slot that has no readable value.
#[verifier::external_body]
pub(crate) fn ref_num<T>(hold: &Hold<'_, T>) -> (count: Result<usize, ach_util::MemoryState>)
    opens_invariants none
    no_unwind
{
    hold.inner.ref_num()
}

/// `Ref::will_remove`: whether the slot is marked to be emptied once the
/// last reference is gone.
#[verifier::external_body]
pub(crate) fn will_remove<T>(hold: &Hold<'_, T>) -> (marked: bool)
    opens_invariants none
    no_unwind
{
    hold.inner.will_remove()
}

/// `Ref::remove`: marks the slot to be emptied once the last reference is
/// gone.
#[verifier::external_body]
pub(crate) fn remove<T>(hold: &Hold<'_, T>)
    opens_invariants none
    no_unwind
{
    hold.inner.remove()
}

/// `Ref::deref`: the value that the reference keeps alive.
#[verifier::external_body]
pub(crate) fn value<'b, T>(hold: &'b Hold<'_, T>) -> (val: &'b T) {
    &*hold.inner
}

} // verus!
