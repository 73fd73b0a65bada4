//! The error that every non-blocking operation hands back.

use vstd::prelude::*;

verus! {

/// The state of a storage slot as the container reports it.
#[verifier::external_type_specification]
#[verifier::external_body]
pub struct ExMemoryState(ach_util::MemoryState);

/// Why a non-blocking operation did not take place.
///
/// `input` is the value that the caller handed in, given back untouched;
/// `retry` tells that the refusal is transient (another task is in the middle
/// of an atomic step) and that the same call may succeed if made again.
#[derive(Debug)]
pub struct Error<T> {
    pub state: ach_util::MemoryState,
    pub input: T,
    pub retry: bool,
}

impl<T> Error<T> {
    /// The value that the refused operation was given.
    pub fn into_input(self) -> (input: T)
        ensures
            input == self.input,
    {
        self.input
    }
}

} // verus!
