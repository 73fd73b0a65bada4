//! One parked task: its waker, and what the registry keeps beside it.

use vstd::prelude::*;
use crate::store::option;
use crate::task;

verus! {

/// A waker that can be fired at most once, with a payload of the registry's
/// choosing beside it.
///
/// The waker sits in an atomic slot.  `wake` empties the slot and fires what
/// it found, so of any number of tasks that race to wake one entity, exactly
/// one finds the waker and the others find the slot empty.
#[verifier::reject_recursive_types(T)]
pub struct WakerEntity<T> {
    waker: ach_option::AchOption<core::task::Waker>,
    val: T,
}

impl<T> WakerEntity<T> {
    /// The payload kept beside the waker.
    pub closed spec fn payload(&self) -> T {
        self.val
    }

    /// An entity that holds `waker`, with `val` beside it.
    pub fn new(waker: core::task::Waker, val: T) -> (entity: WakerEntity<T>)
        ensures
            entity.payload() == val,
    {
        let waker = option::filled(waker);
        WakerEntity { waker, val }
    }

    /// Puts `waker` in the place of the one held.  The one held before, if
    /// any, is dropped and not woken.
    pub fn set_waker(&self, waker: core::task::Waker) {
        let _before = option::replace(&self.waker, waker);
    }

    /// Takes the waker out and fires it.  Returns whether there was one.
    pub fn wake(&self) -> (woke: bool)
        opens_invariants none
        no_unwind
    {
        let held = option::take(&self.waker);
        Self::fire(held)
    }

    /// Fires the waker that was taken out of an entity, if one was.
    ///
    /// This is the second half of `wake`: the result is `true` exactly when
    /// a waker was found.
    pub fn fire(held: Option<core::task::Waker>) -> (woke: bool)
        ensures
            woke == (held is Some),
        opens_invariants none
        no_unwind
    {
        match held {
            Some(waker) => {
                task::wake(waker);
                true
            },
            None => false,
        }
    }

    /// Whether the waker was gone when the entity was looked at.
    pub fn is_waked(&self) -> (waked: bool) {
        option::is_none(&self.waker)
    }
}

impl<T> core::ops::Deref for WakerEntity<T> {
    type Target = T;

    fn deref(&self) -> (val: &T)
        ensures
            *val == self.payload(),
    {
        &self.val
    }
}

} // verus!
