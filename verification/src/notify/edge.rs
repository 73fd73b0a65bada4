//! One versioned listener's poll against one `notify`, step by atomic step,
//! in every order in which the two can run.

use vstd::prelude::*;
use crate::notify::versioned::bumped;
use crate::notify::versioned::seen_after;

verus! {

/// Where the listener stands in its poll.
#[derive(Clone, Copy, PartialEq, Eq, Structural)]
pub enum Looking {
    /// Before its first look at the version.
    First,
    /// The version had not moved; the waker is not parked yet.
    Parking,
    /// The waker is parked; before the second look.
    Second,
    /// The poll is over: the result is ready, or else pending.
    Done { ready: bool },
}

/// Where the notifier stands in its `notify`.
#[derive(Clone, Copy, PartialEq, Eq, Structural)]
pub enum Bumping {
    /// Before the version is moved on.
    Bumping,
    /// The version has moved; before the wake-up.
    Waking,
    /// The notification is over.
    Done,
}

/// The state that the two share, and where each of them stands.
pub struct Edge {
    /// The version counter.
    pub version: usize,
    /// The version that the listener has seen.
    pub seen: usize,
    /// The listener's waker is in the pool, not fired.
    pub parked: bool,
    /// The listener's waker has been fired.
    pub woken: bool,
    pub listener: Looking,
    pub notifier: Bumping,
}

/// The start: a listener that has seen `seen`, a counter at `version`.
pub open spec fn start(seen: usize, version: usize) -> Edge {
    Edge { version, seen, parked: false, woken: false, listener: Looking::First, notifier: Bumping::Bumping }
}

/// A look at the version.  If it is newer than the one seen, the listener
/// takes it as seen and is ready; if not, the listener goes on to `next`.
pub open spec fn look(e: Edge, next: Looking) -> Edge {
    if e.seen < e.version {
        Edge { seen: seen_after(e.seen, e.version), listener: Looking::Done { ready: true }, ..e }
    } else {
        Edge { listener: next, ..e }
    }
}

/// The listener's next atomic step: look, park, look again.
pub open spec fn listener_step(e: Edge) -> Edge {
    match e.listener {
        Looking::First => look(e, Looking::Parking),
        Looking::Parking => Edge { parked: true, listener: Looking::Second, ..e },
        Looking::Second => look(e, Looking::Done { ready: false }),
        Looking::Done { .. } => e,
    }
}

/// The notifier's next atomic step: move the version on, then fire the
/// waker that is parked, if one is.
pub open spec fn notifier_step(e: Edge) -> Edge {
    match e.notifier {
        Bumping::Bumping => Edge { version: bumped(e.version), notifier: Bumping::Waking, ..e },
        Bumping::Waking => Edge {
            parked: false,
            woken: e.woken || e.parked,
            notifier: Bumping::Done,
            ..e
        },
        Bumping::Done => e,
    }
}

/// The state after the steps of `schedule`: `true` lets the listener take
/// its next step, `false` the notifier.
pub open spec fn run(e: Edge, schedule: Seq<bool>) -> Edge
    decreases schedule.len(),
{
    if schedule.len() == 0 {
        e
    } else {
        let before = run(e, schedule.drop_last());
        if schedule.last() {
            listener_step(before)
        } else {
            notifier_step(before)
        }
    }
}

/// What holds at every point, for a listener that started at `seen` and a
/// counter that started at `version`.
pub open spec fn holds(e: Edge, seen: usize, version: usize) -> bool {
    let moved = !(e.notifier is Bumping);
    let failed = e.listener == (Looking::Done { ready: false });
    &&& e.version == if moved {
        version + 1
    } else {
        version as int
    }
    &&& if e.listener == (Looking::Done { ready: true }) {
        seen < e.seen <= e.version
    } else {
        e.seen == seen
    }
    &&& e.listener is Second || failed ==> e.parked || e.woken
    &&& e.notifier is Done && failed ==> e.woken
    &&& e.woken ==> e.notifier is Done
}

proof fn lemma_step_keeps(e: Edge, seen: usize, version: usize, listener: bool)
    requires
        seen <= version < usize::MAX,
        holds(e, seen, version),
    ensures
        holds(
            if listener {
                listener_step(e)
            } else {
                notifier_step(e)
            },
            seen,
            version,
        ),
{
}

proof fn lemma_run_keeps(seen: usize, version: usize, schedule: Seq<bool>)
    requires
        seen <= version < usize::MAX,
    ensures
        holds(run(start(seen, version), schedule), seen, version),
    decreases schedule.len(),
{
    if schedule.len() > 0 {
        lemma_run_keeps(seen, version, schedule.drop_last());
        lemma_step_keeps(run(start(seen, version), schedule.drop_last()), seen, version, schedule.last());
    }
}

/// No edge is missed.  A listener that was there before a `notify` has
/// seen a version no newer than the counter.  In whatever order its poll
/// and the `notify` take their steps, once both are over the listener is
/// ready, or its parked waker has been fired; and a listener that is ready
/// has moved on to a version newer than the one it had seen.
pub proof fn law_no_missed_edge(seen: usize, version: usize, schedule: Seq<bool>)
    requires
        seen <= version < usize::MAX,
    ensures
        ({
            let end = run(start(seen, version), schedule);
            &&& end.listener is Done && end.notifier is Done ==> end.listener == (Looking::Done {
                ready: true,
            }) || end.woken
            &&& end.listener == (Looking::Done { ready: true }) ==> end.seen > seen
            &&& end.seen >= seen
        }),
{
    lemma_run_keeps(seen, version, schedule);
}

} // verus!
