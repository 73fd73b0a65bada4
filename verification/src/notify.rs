//! A counted notification: one permit per `notify_one`, one listener per
//! permit.

use vstd::prelude::*;
use core::sync::atomic::AtomicUsize;
use core::sync::atomic::Ordering;
use crate::store::atomic;
use crate::task;
use crate::task::Poll;
use crate::waker::entity::WakerEntity;
use crate::waker::pool::WakerPool;
use crate::waker::pool::WakerToken;
use crate::notify::race::Polling;

pub mod edge;
pub mod race;
pub mod versioned;

verus! {

/// The permit counter after a notification: one more, wrapping round at the
/// top of the range.
pub open spec fn granted(permit: usize) -> usize {
    if permit == usize::MAX {
        0
    } else {
        (permit + 1) as usize
    }
}

/// What a listener's attempt makes of the permit counter: with a permit in
/// it, one less; without, nothing, and the attempt fails.
pub open spec fn claimed(permit: usize) -> Option<usize> {
    if permit > 0 {
        Some((permit - 1) as usize)
    } else {
        None
    }
}

/// The update that a listener applies to the permit counter in one atomic
/// step.
pub fn claim(permit: usize) -> (left: Option<usize>)
    ensures
        left == claimed(permit),
{
    if permit > 0 {
        Some(permit - 1)
    } else {
        None
    }
}

/// `AtomicUsize::fetch_update` with `claim`, sequentially consistent: the
/// counter found is replaced by what `claim` makes of it, in one atomic
/// step.  `Ok` carries the counter found when `claim` gave a new one, `Err`
/// the counter found when it gave none.
#[verifier::external_body]
fn fetch_claim(permit: &AtomicUsize) -> (found: Result<usize, usize>)
    ensures
        found matches Ok(p) ==> claimed(p) is Some,
        found matches Err(p) ==> claimed(p) is None,
{
    permit.fetch_update(Ordering::SeqCst, Ordering::SeqCst, claim)
}

/// One atomic step on the permit counter.
pub enum Step {
    /// A `notify_one` adds a permit.
    Notify,
    /// A listener tries to take a permit.
    Listen,
}

/// The permit counter after `steps` were taken, in this order, on a counter
/// that started at zero.
pub open spec fn permits_after(steps: Seq<Step>) -> usize
    decreases steps.len(),
{
    if steps.len() == 0 {
        0
    } else {
        let before = permits_after(steps.drop_last());
        match steps.last() {
            Step::Notify => granted(before),
            Step::Listen => match claimed(before) {
                Some(left) => left,
                None => before,
            },
        }
    }
}

/// The number of notifications among `steps`.
pub open spec fn notified(steps: Seq<Step>) -> nat
    decreases steps.len(),
{
    if steps.len() == 0 {
        0
    } else {
        notified(steps.drop_last()) + if steps.last() is Notify {
            1nat
        } else {
            0nat
        }
    }
}

/// The number of listeners' tries among `steps` that found a permit.
pub open spec fn completed(steps: Seq<Step>) -> nat
    decreases steps.len(),
{
    if steps.len() == 0 {
        0
    } else {
        completed(steps.drop_last()) + if steps.last() is Listen && claimed(
            permits_after(steps.drop_last()),
        ) is Some {
            1nat
        } else {
            0nat
        }
    }
}

/// No permit is lost and none is made up: in whatever order notifiers and
/// listeners take their steps, the listens that completed and the permits
/// still in the counter add up to the notifications.  So never more
/// listens complete than notifications were given, and once the counter is
/// back at zero there are exactly as many.
///
/// The counter wraps round at `usize::MAX`; the law is stated for the runs
/// that stay below.
pub proof fn law_permits_balance(steps: Seq<Step>)
    requires
        notified(steps) <= usize::MAX,
    ensures
        completed(steps) + permits_after(steps) == notified(steps),
        completed(steps) <= notified(steps),
        permits_after(steps) == 0 ==> completed(steps) == notified(steps),
    decreases steps.len(),
{
    if steps.len() > 0 {
        law_permits_balance(steps.drop_last());
    }
}

/// A notification is not lost on a listener that comes later: after a
/// `notify_one` the next try to take a permit succeeds, and leaves the
/// counter as it was before the notification.
pub proof fn law_notify_completes_listen(permit: usize)
    requires
        permit < usize::MAX,
    ensures
        claimed(granted(permit)) == Some(permit),
{
}

/// A listener completes only on a permit: on a counter at zero the try
/// fails.
pub proof fn law_listen_needs_permit()
    ensures
        claimed(0) is None,
{
}

/// A broadcast that runs undisturbed, on a counter at `permit` with
/// `parked` tasks parked, for at most `rounds` rounds: the counter after it,
/// and the number of tasks woken.
///
/// Each round adds a permit and wakes one task; the round that finds nobody
/// takes its permit back and ends the broadcast.
pub open spec fn broadcast(permit: usize, parked: nat, rounds: nat) -> (usize, nat)
    decreases rounds,
{
    if rounds == 0 {
        (permit, 0)
    } else if parked == 0 {
        match claimed(granted(permit)) {
            Some(left) => (left, 0),
            None => (granted(permit), 0),
        }
    } else {
        let (after, woken) = broadcast(granted(permit), (parked - 1) as nat, (rounds - 1) as nat);
        (after, woken + 1)
    }
}

/// The number of tasks woken by a broadcast after one more round, which
/// `woke` a task or found nobody: one more, or `None`, which ends the
/// broadcast.
pub open spec fn woken_after(num: usize, woke: bool) -> Option<usize> {
    if woke {
        Some((num + 1) as usize)
    } else {
        None
    }
}

/// Counts one round of a broadcast.  This is the step that
/// `Notify::notify_waiters` takes on the answer of each wake-up.
pub fn broadcast_step(num: usize, woke: bool) -> (next: Option<usize>)
    requires
        num < usize::MAX,
    ensures
        next == woken_after(num, woke),
{
    if woke {
        Some(num + 1)
    } else {
        None
    }
}

/// A broadcast wakes every parked task once and leaves one permit for each
/// of them, and none for a listener that comes later.
///
/// There are never more tasks parked than rounds: both are bounded by the
/// places of the pool.
pub proof fn law_broadcast_pays_each_waiter(permit: usize, parked: nat, rounds: nat)
    requires
        parked <= rounds,
        permit + parked < usize::MAX,
    ensures
        broadcast(permit, parked, rounds) == ((permit + parked) as usize, parked),
    decreases rounds,
{
    if rounds > 0 && parked > 0 {
        law_broadcast_pays_each_waiter(granted(permit), (parked - 1) as nat, (rounds - 1) as nat);
    }
}

/// A permit counter and the tasks that wait for a permit.
///
/// `W` is the number of tasks that can be parked at a time.  A permit
/// belongs to nobody until it is taken: permits that nobody takes pile up,
/// and a listener that polls again takes the next one ahead of the
/// listeners that are parked.
pub struct Notify<const W: usize> {
    permit: AtomicUsize,
    wakers: WakerPool<(), W>,
}

impl<const W: usize> Notify<W> {
    /// A `Notify` without permits and without parked tasks.
    pub fn new() -> (notify: Self) {
        Notify { permit: AtomicUsize::new(0), wakers: WakerPool::new() }
    }

    /// Adds one permit, then wakes one parked task.
    ///
    /// The permit is there before any task is woken, and it is there
    /// whether or not one is: if none was parked, the next listener finds
    /// it.
    pub fn notify_one(&self)
        opens_invariants none
        no_unwind
    {
        atomic::fetch_add(&self.permit, 1);
        self.wakers.wake_one();
    }

    /// Notifies one task if `outcome` is a success, and hands `outcome` on
    /// as it is.  This is what a non-blocking operation does with the answer
    /// of its container.
    pub fn notify_if_ok<V, E>(&self, outcome: Result<V, E>) -> (same: Result<V, E>)
        ensures
            same == outcome,
    {
        if outcome.is_ok() {
            self.notify_one();
        }
        outcome
    }

    /// Notifies one task if `outcome` holds a value, and hands `outcome` on
    /// as it is.
    pub fn notify_if_some<V>(&self, outcome: Option<V>) -> (same: Option<V>)
        ensures
            same == outcome,
    {
        if outcome.is_some() {
            self.notify_one();
        }
        outcome
    }

    /// Wakes every parked task if `num` is not zero, and hands `num` on as
    /// it is.  This is what a publisher does with the number of subscribers
    /// that took a value.
    pub fn notify_waiters_if_any(&self, num: usize) -> (same: usize)
        ensures
            same == num,
    {
        if num != 0 {
            self.notify_waiters();
        }
        num
    }

    /// Wakes every parked task, with one permit for each.
    ///
    /// A permit is added before each attempt to wake; the permit of the
    /// attempt that found nobody is taken back.  Each round is counted as
    /// `broadcast_step` says.  Returns the number of tasks woken, which is
    /// never more than `W`.
    pub fn notify_waiters(&self) -> (num: usize)
        ensures
            num <= W,
    {
        let mut num: usize = 0;
        while num < W
            invariant
                num <= W,
            decreases W - num,
        {
            atomic::fetch_add(&self.permit, 1);
            match broadcast_step(num, self.wakers.wake_one()) {
                Some(next) => {
                    num = next;
                },
                None => {
                    self.get_permit();
                    return num;
                },
            }
        }
        num
    }

    /// Whether a permit was there when the counter was looked at.
    pub fn had_notified(&self) -> (had: bool) {
        self.permit.load(Ordering::SeqCst) != 0
    }

    /// A listener on this `Notify`, not yet parked.
    pub fn listen(&self) -> (listener: Listener<'_, W>)
        ensures
            listener.notify() == self,
            !listener.is_registered(),
    {
        Listener { parent: self, token: None }
    }

    /// Takes one permit if there is one.
    fn get_permit(&self) -> (got: bool) {
        fetch_claim(&self.permit).is_ok()
    }
}

/// One task's wait for a permit.
///
/// The listener reserves a place among the parked tasks the first time it
/// has to wait and keeps it until it is dropped; dropping it takes its waker
/// out, so that no wake-up goes to a task that has stopped listening.
pub struct Listener<'a, const W: usize> {
    parent: &'a Notify<W>,
    token: Option<WakerToken<'a, (), W>>,
}

impl<'a, const W: usize> Listener<'a, W> {
    /// The `Notify` that is listened to.
    pub closed spec fn notify(&self) -> &'a Notify<W> {
        self.parent
    }

    /// Whether the listener holds a place among the parked tasks.
    pub closed spec fn is_registered(&self) -> bool {
        self.token is Some
    }

    /// Makes sure that the listener holds a place among the parked tasks.
    ///
    /// Returns `false` if it holds none and none could be reserved.  A place
    /// once held is kept.
    pub fn pendable(&mut self) -> (held: bool)
        ensures
            held == final(self).is_registered(),
            old(self).is_registered() ==> held,
            final(self).notify() == old(self).notify(),
    {
        if self.token.is_some() {
            true
        } else {
            match self.parent.wakers.register() {
                Ok(token) => {
                    self.token = Some(token);
                    true
                },
                Err(_) => false,
            }
        }
    }

    /// Parks `waker`: into the listener's place if it has or gets one, or
    /// else by waking it at once, so that the task polls again.
    fn park(&mut self, waker: &core::task::Waker)
        ensures
            old(self).is_registered() ==> final(self).is_registered(),
            final(self).notify() == old(self).notify(),
    {
        if self.pendable() {
            match &self.token {
                Some(token) => {
                    token.swap(WakerEntity::new(task::another(waker), ()));
                },
                None => {},
            }
        } else {
            task::wake_by_ref(waker);
        }
    }

    /// One poll of the wait, as a stream of permits.
    ///
    /// The listener tries to take a permit.  If there is none it parks
    /// `waker`, then tries once more: a permit that arrived between the
    /// first try and the parking, whose wake-up found no waker yet, is found
    /// by the second try.  After each try the poll goes on as
    /// `race::after_try` says, and what it reports is `race::report` of
    /// where it ended.  `Ready(Some(()))` says that one permit was taken;
    /// the stream never ends.
    pub fn poll_next(&mut self, waker: &core::task::Waker) -> (polled: Poll<Option<()>>)
        ensures
            polled is Ready ==> polled == Poll::Ready(Some(())),
            old(self).is_registered() ==> final(self).is_registered(),
            final(self).notify() == old(self).notify(),
    {
        let first = race::after_try(Polling::First, self.parent.get_permit());
        match first {
            Polling::Parking => {
                self.park(waker);
                race::report(race::after_try(Polling::Second, self.parent.get_permit()))
            },
            _ => race::report(first),
        }
    }

    /// One poll of the wait for a single permit: `poll_next`, with the
    /// permit as the whole result.
    pub fn poll(&mut self, waker: &core::task::Waker) -> (polled: Poll<()>)
        ensures
            old(self).is_registered() ==> final(self).is_registered(),
            final(self).notify() == old(self).notify(),
    {
        self.poll_next(waker).item()
    }
}

} // verus!
