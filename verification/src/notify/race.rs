//! One listener's poll against one `notify_one`, step by atomic step, in
//! every order in which the two can run.

use vstd::prelude::*;
use crate::notify::claimed;
use crate::notify::granted;
use crate::task::Poll;

verus! {

/// Where the listener stands in its poll.
#[derive(Clone, Copy, Debug, PartialEq, Eq, Structural)]
pub enum Polling {
    /// Before its first try to take a permit.
    First,
    /// The first try failed; the waker is not parked yet.
    Parking,
    /// The waker is parked; before the second try.
    Second,
    /// The poll is over: the result is ready, or else pending.
    Done { ready: bool },
}

/// Where the listener stands after a try to take a permit, which it made
/// at `stage` and which `got` one or not.
///
/// A first try that got a permit ends the poll, ready; one that got none
/// sends the listener to park its waker.  The second try ends the poll
/// either way: ready with a permit, pending without.
pub open spec fn stage_after(stage: Polling, got: bool) -> Polling {
    match stage {
        Polling::First => if got {
            Polling::Done { ready: true }
        } else {
            Polling::Parking
        },
        Polling::Second => Polling::Done { ready: got },
        _ => stage,
    }
}

/// Takes the listener on from a try to take a permit.  This is the step
/// that `Listener::poll_next` takes after each of its two tries.
pub fn after_try(stage: Polling, got: bool) -> (next: Polling)
    requires
        stage is First || stage is Second,
    ensures
        next == stage_after(stage, got),
{
    match stage {
        Polling::First => {
            if got {
                Polling::Done { ready: true }
            } else {
                Polling::Parking
            }
        },
        _ => Polling::Done { ready: got },
    }
}

/// What a poll that is over reports: ready with the permit taken, or
/// pending.
pub open spec fn report_of(stage: Polling) -> Poll<Option<()>> {
    if stage == (Polling::Done { ready: true }) {
        Poll::Ready(Some(()))
    } else {
        Poll::Pending
    }
}

/// Reports a poll that is over.
pub fn report(stage: Polling) -> (polled: Poll<Option<()>>)
    requires
        stage is Done,
    ensures
        polled == report_of(stage),
{
    match stage {
        Polling::Done { ready } => {
            if ready {
                Poll::Ready(Some(()))
            } else {
                Poll::Pending
            }
        },
        _ => Poll::Pending,
    }
}

/// Where the notifier stands in its `notify_one`.
#[derive(Clone, Copy, PartialEq, Eq, Structural)]
pub enum Notifying {
    /// Before the permit is added.
    Granting,
    /// The permit is added; before the wake-up.
    Waking,
    /// The notification is over.
    Done,
}

/// The state that the two share, and where each of them stands.
pub struct Race {
    /// The permit counter.
    pub permit: usize,
    /// The listener's waker is in the pool, not fired.
    pub parked: bool,
    /// The listener's waker has been fired.
    pub woken: bool,
    pub listener: Polling,
    pub notifier: Notifying,
}

/// The start of the race: `permit` permits, nothing parked, nothing done.
pub open spec fn start(permit: usize) -> Race {
    Race { permit, parked: false, woken: false, listener: Polling::First, notifier: Notifying::Granting }
}

/// A try to take a permit: the counter after it, and whether it
/// succeeded.
pub open spec fn try_permit(race: Race) -> (usize, bool) {
    match claimed(race.permit) {
        Some(left) => (left, true),
        None => (race.permit, false),
    }
}

/// The listener's next atomic step: try, park, try again.
pub open spec fn listener_step(race: Race) -> Race {
    match race.listener {
        Polling::First => {
            let (permit, got) = try_permit(race);
            Race {
                permit,
                listener: if got {
                    Polling::Done { ready: true }
                } else {
                    Polling::Parking
                },
                ..race
            }
        },
        Polling::Parking => Race { parked: true, listener: Polling::Second, ..race },
        Polling::Second => {
            let (permit, got) = try_permit(race);
            Race { permit, listener: Polling::Done { ready: got }, ..race }
        },
        Polling::Done { .. } => race,
    }
}

/// The notifier's next atomic step: add the permit, then fire the waker
/// that is parked, if one is.
pub open spec fn notifier_step(race: Race) -> Race {
    match race.notifier {
        Notifying::Granting => Race { permit: granted(race.permit), notifier: Notifying::Waking, ..race },
        Notifying::Waking => Race {
            parked: false,
            woken: race.woken || race.parked,
            notifier: Notifying::Done,
            ..race
        },
        Notifying::Done => race,
    }
}

/// The race after the steps of `schedule`: `true` lets the listener take
/// its next step, `false` the notifier.
pub open spec fn run(race: Race, schedule: Seq<bool>) -> Race
    decreases schedule.len(),
{
    if schedule.len() == 0 {
        race
    } else {
        let before = run(race, schedule.drop_last());
        if schedule.last() {
            listener_step(before)
        } else {
            notifier_step(before)
        }
    }
}

/// The listener's step at a try is the step that the poll takes: the model
/// moves the listener exactly as `after_try` does on the answer of the
/// try.
pub proof fn law_step_is_after_try(race: Race)
    requires
        race.listener is First || race.listener is Second,
    ensures
        listener_step(race).listener == stage_after(race.listener, try_permit(race).1),
        listener_step(race).permit == try_permit(race).0,
{
}

/// What holds at every point of a race that started with `permit` permits.
pub open spec fn holds(race: Race, permit: usize) -> bool {
    let granted = if race.notifier is Granting {
        0int
    } else {
        1int
    };
    let taken = if race.listener == (Polling::Done { ready: true }) {
        1int
    } else {
        0int
    };
    let failed = race.listener == (Polling::Done { ready: false });
    &&& race.permit == permit + granted - taken
    &&& (race.listener is Second || failed) ==> race.parked || race.woken
    &&& !(race.notifier is Done && race.parked && !race.woken && failed)
    &&& race.woken ==> race.notifier is Done
}

proof fn lemma_step_keeps(race: Race, permit: usize, listener: bool)
    requires
        permit < usize::MAX,
        holds(race, permit),
    ensures
        holds(
            if listener {
                listener_step(race)
            } else {
                notifier_step(race)
            },
            permit,
        ),
{
}

proof fn lemma_run_keeps(permit: usize, schedule: Seq<bool>)
    requires
        permit < usize::MAX,
    ensures
        holds(run(start(permit), schedule), permit),
    decreases schedule.len(),
{
    if schedule.len() > 0 {
        lemma_run_keeps(permit, schedule.drop_last());
        lemma_step_keeps(run(start(permit), schedule.drop_last()), permit, schedule.last());
    }
}

/// No wake-up is lost.  In whatever order a listener's poll and a
/// `notify_one` take their steps, once both are over the listener is ready,
/// or its parked waker has been fired: the listener never ends up pending
/// and forgotten.
///
/// The second try is what makes it so.  A permit added before the waker was
/// parked found nobody to wake, and is found by the second try; a permit
/// added after finds the waker.
pub proof fn law_no_lost_wakeup(permit: usize, schedule: Seq<bool>)
    requires
        permit < usize::MAX,
    ensures
        ({
            let end = run(start(permit), schedule);
            end.listener is Done && end.notifier is Done ==> end.listener == (Polling::Done {
                ready: true,
            }) || end.woken
        }),
{
    lemma_run_keeps(permit, schedule);
}

/// The listener after a whole poll that no notifier disturbs.
pub open spec fn polled_alone(race: Race) -> Race {
    listener_step(listener_step(listener_step(race)))
}

/// Without a permit a poll is pending, and leaves the waker parked: so is
/// every poll on a `Notify` that nobody has notified.
pub proof fn law_poll_without_permit_is_pending()
    ensures
        polled_alone(start(0)).listener == (Polling::Done { ready: false }),
        polled_alone(start(0)).parked,
        polled_alone(start(0)).permit == 0,
{
}

/// With a permit a poll is ready on its first try: it takes exactly one
/// permit and parks no waker.  So permits that piled up are taken one per
/// poll, and the poll after the last of them is pending.
pub proof fn law_poll_with_permit_is_ready(permit: usize)
    requires
        permit > 0,
    ensures
        polled_alone(start(permit)).listener == (Polling::Done { ready: true }),
        polled_alone(start(permit)).permit == permit - 1,
        !polled_alone(start(permit)).parked,
{
}

/// The poll without its second try, to show what the second try is for.
pub open spec fn hasty_listener_step(race: Race) -> Race {
    match race.listener {
        Polling::First => {
            let (permit, got) = try_permit(race);
            Race {
                permit,
                listener: if got {
                    Polling::Done { ready: true }
                } else {
                    Polling::Parking
                },
                ..race
            }
        },
        Polling::Parking => Race { parked: true, listener: Polling::Done { ready: false }, ..race },
        _ => race,
    }
}

/// Without the second try a wake-up can be lost: if the whole notification
/// falls between the first try and the parking, the listener ends up
/// pending, with a permit in the counter and nobody left to wake it.
pub proof fn law_second_try_is_needed()
    ensures
        ({
            let tried = hasty_listener_step(start(0));
            let notified = notifier_step(notifier_step(tried));
            let end = hasty_listener_step(notified);
            &&& end.listener == (Polling::Done { ready: false })
            &&& end.notifier is Done
            &&& !end.woken
            &&& end.permit == 1
        }),
{
}

} // verus!
