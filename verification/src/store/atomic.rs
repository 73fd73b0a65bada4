//! The atomic steps on flags and counters that need a stated outcome.

use vstd::prelude::*;
use core::sync::atomic::AtomicBool;
use core::sync::atomic::AtomicUsize;
use core::sync::atomic::Ordering;

verus! {

/// `AtomicBool::compare_exchange`, sequentially consistent: writes `new` if
/// the flag holds `current`.  `Ok` carries the value found, which then is
/// `current`; `Err` carries the value found when it was another one.
#[verifier::external_body]
pub(crate) fn exchange(flag: &AtomicBool, current: bool, new: bool) -> (found: Result<bool, bool>)
    ensures
        found matches Ok(v) ==> v == current,
        found matches Err(v) ==> v != current,
    opens_invariants none
    no_unwind
{
    flag.compare_exchange(current, new, Ordering::SeqCst, Ordering::Relaxed)
}

/// `AtomicUsize::fetch_add`, sequentially consistent: adds `n`, wrapping
/// round at the top of the range, and hands out the value found.  Other
/// tasks share the counter, so nothing is said of that value.
#[verifier::external_body]
pub(crate) fn fetch_add(counter: &AtomicUsize, n: usize) -> (found: usize)
    opens_invariants none
    no_unwind
{
    counter.fetch_add(n, Ordering::SeqCst)
}

} // verus!
