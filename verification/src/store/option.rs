//! The atomic optional slot of `ach_option`, as far as the wakers use it.

use vstd::prelude::*;
use crate::error::Error;

verus! {

/// `ach_option::AchOption`: a slot that holds one value or none and is
/// filled and emptied through shared references.
#[verifier::external_type_specification]
#[verifier::external_body]
#[verifier::reject_recursive_types(T)]
pub struct ExAchOption<T>(ach_option::AchOption<T>);

/// `AchOption::new_with`: a slot that starts out holding `value`.
#[verifier::external_body]
pub(crate) fn filled<T>(value: T) -> (slot: ach_option::AchOption<T>) {
    ach_option::AchOption::new_with(value)
}

/// `AchOption::new`: a slot that starts out empty.
#[verifier::external_body]
pub(crate) fn vacant<T>() -> (slot: ach_option::AchOption<T>) {
    ach_option::AchOption::new()
}

/// `AchOption::try_replace`: puts `value` into the slot and hands out what
/// the slot held.  A refusal carries `value` back.
#[verifier::external_body]
pub(crate) fn try_replace<T>(slot: &ach_option::AchOption<T>, value: T) -> (before: Result<
    Option<T>,
    Error<T>,
>)
    ensures
        before matches Err(e) ==> e.input == value,
{
    match slot.try_replace(value) {
        Ok(held) => Ok(held),
        Err(e) => Err(Error { state: e.state, input: e.input, retry: e.retry }),
    }
}

/// `AchOption::try_take`: empties the slot and hands out what it held.
#[verifier::external_body]
pub(crate) fn try_take<T>(slot: &ach_option::AchOption<T>) -> (held: Result<Option<T>, Error<()>>) {
    match slot.try_take() {
        Ok(held) => Ok(held),
        Err(e) => Err(Error { state: e.state, input: e.input, retry: e.retry }),
    }
}

/// `AchOption::replace`: puts `value` into the slot and hands out what the
/// slot held.  Other tasks share the slot, so nothing is said of what comes
/// out.
#[verifier::external_body]
pub(crate) fn replace<T>(slot: &ach_option::AchOption<T>, value: T) -> (before: Option<T>) {
    slot.replace(value)
}

/// `AchOption::take`: empties the slot and hands out what it held.  Other
/// tasks share the slot, so nothing is said of what comes out.
#[verifier::external_body]
pub(crate) fn take<T>(slot: &ach_option::AchOption<T>) -> (held: Option<T>)
    opens_invariants none
    no_unwind
{
    slot.take()
}

/// `AchOption::is_none`: whether the slot was empty when it was looked at.
#[verifier::external_body]
pub(crate) fn is_none<T>(slot: &ach_option::AchOption<T>) -> (empty: bool) {
    slot.is_none()
}

} // verus!
