//! The suspension protocol that every blocking operation follows, step by
//! atomic step, against the operation that unblocks it.
//!
//! A waiter tries its operation; when that fails it takes a listener's
//! poll (try a permit, park the waker, try a permit again); with a permit
//! it starts over, without one it ends pending.  The other side makes its
//! change visible, then notifies: it adds a permit, then wakes a parked
//! waker.
//!
//! The steps here are a model: each stands for one atomic step of the code,
//! and the laws hold of every order in which the model can take them.  In
//! the code a waiter's try of its operation is the `try_*` of a container,
//! whose answer the wait's `settle` takes; its tries for a permit are
//! `notify::claim`, applied atomically, whose answer
//! `notify::race::after_try` takes; the other side's permit is the
//! `fetch_add` in `Notify::notify_one`, and its wake-up is
//! `WakerPool::wake_one`.  What is shown is that the waiter cannot miss the
//! change: in every order of the steps it completes, or it ends pending
//! with its waker fired, so that it is polled again.

use vstd::prelude::*;
use crate::notify::claimed;
use crate::notify::granted;

verus! {

/// Where the waiter stands.
#[derive(Clone, Copy, PartialEq, Eq, Structural)]
pub enum Waiting {
    /// Before a try of the operation.
    Trying,
    /// The operation failed; before the first try to take a permit.
    First,
    /// No permit; the waker is not parked yet.
    Parking,
    /// The waker is parked; before the second try to take a permit.
    Second,
    /// The operation took place.
    Completed,
    /// The poll ended pending.
    Pending,
}

/// Where the other side stands.
#[derive(Clone, Copy, PartialEq, Eq, Structural)]
pub enum Serving {
    /// Before its change is visible.
    Changing,
    /// The change is visible; before the permit is added.
    Granting,
    /// The permit is added; before the wake-up.
    Waking,
    /// The change and its notification are over.
    Done,
}

/// What the two share, and where each of them stands.
pub struct Meeting {
    /// The change that the waiter waits for is visible.
    pub changed: bool,
    /// The permit counter.
    pub permit: usize,
    /// The waiter's waker is in the pool, not fired.
    pub parked: bool,
    /// The waiter's waker has been fired.
    pub woken: bool,
    pub waiter: Waiting,
    pub server: Serving,
}

/// The start: nothing changed, `permit` permits left over from earlier
/// notifications, nothing parked.
pub open spec fn start(permit: usize) -> Meeting {
    Meeting {
        changed: false,
        permit,
        parked: false,
        woken: false,
        waiter: Waiting::Trying,
        server: Serving::Changing,
    }
}

/// The waiter's next atomic step.
pub open spec fn waiter_step(m: Meeting) -> Meeting {
    match m.waiter {
        Waiting::Trying => Meeting {
            waiter: if m.changed {
                Waiting::Completed
            } else {
                Waiting::First
            },
            ..m
        },
        Waiting::First => match claimed(m.permit) {
            Some(left) => Meeting { permit: left, waiter: Waiting::Trying, ..m },
            None => Meeting { waiter: Waiting::Parking, ..m },
        },
        Waiting::Parking => Meeting { parked: true, waiter: Waiting::Second, ..m },
        Waiting::Second => match claimed(m.permit) {
            Some(left) => Meeting { permit: left, waiter: Waiting::Trying, ..m },
            None => Meeting { waiter: Waiting::Pending, ..m },
        },
        Waiting::Completed => m,
        Waiting::Pending => m,
    }
}

/// The other side's next atomic step.
pub open spec fn server_step(m: Meeting) -> Meeting {
    match m.server {
        Serving::Changing => Meeting { changed: true, server: Serving::Granting, ..m },
        Serving::Granting => Meeting { permit: granted(m.permit), server: Serving::Waking, ..m },
        Serving::Waking => Meeting {
            parked: false,
            woken: m.woken || m.parked,
            server: Serving::Done,
            ..m
        },
        Serving::Done => m,
    }
}

/// The meeting after the steps of `schedule`: `true` lets the waiter take
/// its next step, `false` the other side.
pub open spec fn run(m: Meeting, schedule: Seq<bool>) -> Meeting
    decreases schedule.len(),
{
    if schedule.len() == 0 {
        m
    } else {
        let before = run(m, schedule.drop_last());
        if schedule.last() {
            waiter_step(before)
        } else {
            server_step(before)
        }
    }
}

/// What holds at every point of a meeting.
pub open spec fn holds(m: Meeting) -> bool {
    let granted = m.server is Waking || m.server is Done;
    &&& m.changed <==> !(m.server is Changing)
    &&& m.waiter is Completed ==> m.changed
    &&& granted && (m.waiter is First || m.waiter is Parking || m.waiter is Second) ==> m.permit
        >= 1
    &&& m.waiter is Second || m.waiter is Pending ==> m.parked || m.woken
    &&& m.server is Done && m.waiter is Pending ==> m.woken
    &&& m.woken ==> m.server is Done
}

proof fn lemma_run_keeps(permit: usize, schedule: Seq<bool>)
    requires
        permit < usize::MAX,
    ensures
        holds(run(start(permit), schedule)),
        run(start(permit), schedule).permit <= permit + 1,
        run(start(permit), schedule).permit <= permit || !(run(start(permit), schedule).server
            is Changing || run(start(permit), schedule).server is Granting),
    decreases schedule.len(),
{
    if schedule.len() > 0 {
        lemma_run_keeps(permit, schedule.drop_last());
        lemma_step_keeps(run(start(permit), schedule.drop_last()), schedule.last(), permit);
    }
}

proof fn lemma_step_keeps(m: Meeting, waiter: bool, permit: usize)
    requires
        holds(m),
        permit < usize::MAX,
        m.permit <= permit + 1,
        m.permit <= permit || !(m.server is Changing || m.server is Granting),
    ensures
        ({
            let after = if waiter {
                waiter_step(m)
            } else {
                server_step(m)
            };
            &&& holds(after)
            &&& after.permit <= permit + 1
            &&& after.permit <= permit || !(after.server is Changing || after.server is Granting)
        }),
{
}

/// The waiter cannot miss the change.  In whatever order the two take
/// their steps, and however many permits were left over at the start: a
/// waiter that completed did so on the change; and once the other side is
/// done, a waiter that ended pending has had its waker fired.
///
/// So a poll that ends pending after the change was made is always followed
/// by another poll, which begins with a try of the operation and finds the
/// change.
pub proof fn law_change_is_not_missed(permit: usize, schedule: Seq<bool>)
    requires
        permit < usize::MAX,
    ensures
        ({
            let end = run(start(permit), schedule);
            &&& end.waiter is Completed ==> end.changed
            &&& end.waiter is Pending && end.server is Done ==> end.woken
        }),
{
    lemma_run_keeps(permit, schedule);
}

/// A waiter that ends pending is parked: its waker is in the pool or has
/// been fired, whatever the other side has done.
pub proof fn law_pending_is_parked(permit: usize, schedule: Seq<bool>)
    requires
        permit < usize::MAX,
    ensures
        ({
            let end = run(start(permit), schedule);
            end.waiter is Pending ==> end.parked || end.woken
        }),
{
    lemma_run_keeps(permit, schedule);
}

} // verus!
