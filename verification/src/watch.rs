//! The latest value of something that changes, with a version that tells a
//! receiver whether it has seen it.

use vstd::prelude::*;
use core::sync::atomic::AtomicUsize;
use core::sync::atomic::Ordering;
use crate::cell::Cell;
use crate::cell::Replace;
use crate::error::Error;
use crate::notify::Listener;
use crate::notify::Notify;
use crate::notify::versioned::advance;
use crate::store::atomic;
use crate::task;
use crate::task::Poll;

verus! {

/// How often a receiver wants to hear of the value, in nanoseconds.
///
/// `min` is the least time between two deliveries; zero asks for none.
/// `max` is the most time that a delivery may wait for a change; after it
/// the value is delivered though it has not changed.  `None` lets a
/// delivery wait for ever.
#[derive(Clone, Copy, Debug, PartialEq, Eq, Structural)]
pub struct Interval {
    pub min: u64,
    pub max: Option<u64>,
}

/// The time `gap` nanoseconds after `last`, or the end of time if that is
/// past it.
pub open spec fn later(last: u64, gap: u64) -> u64 {
    if last + gap > u64::MAX {
        u64::MAX
    } else {
        (last + gap) as u64
    }
}

/// The time before which nothing is delivered, if `now` is before it.
pub open spec fn throttled_until(interval: Interval, last: u64, now: u64) -> Option<u64> {
    if interval.min != 0 && now < later(last, interval.min) {
        Some(later(last, interval.min))
    } else {
        None
    }
}

/// The time after which the value is delivered unchanged, if there is one.
pub open spec fn deadline(interval: Interval, last: u64) -> Option<u64> {
    match interval.max {
        Some(max) => Some(later(last, max)),
        None => None,
    }
}

/// Whether `now` is past the time by which a delivery was due.
pub open spec fn overdue(interval: Interval, last: u64, now: u64) -> bool {
    match deadline(interval, last) {
        Some(end) => now > end,
        None => false,
    }
}

/// What a receiver does once the throttle is over.
#[derive(Clone, Copy, Debug, PartialEq, Eq, Structural)]
pub enum Verdict {
    /// Deliver the value now: the deadline has passed.
    Overdue,
    /// Deliver the value now: it has changed.
    Changed,
    /// Park the task, with a timer for this time.
    Arm(u64),
    /// Park the task until the value changes.
    Park,
}

/// The verdict at time `now` for a receiver that delivered last at `last`
/// and has seen version `seen`, when the value is at version `current`: a
/// delivery is due if the deadline has passed or the value has changed.
pub open spec fn verdict_of(interval: Interval, last: u64, now: u64, seen: usize, current: usize) -> Verdict {
    if overdue(interval, last, now) {
        Verdict::Overdue
    } else if seen < current {
        Verdict::Changed
    } else {
        match deadline(interval, last) {
            Some(end) => Verdict::Arm(end),
            None => Verdict::Park,
        }
    }
}

/// Whether a delivery is due on `verdict`, when the timer for the deadline
/// has `fired` or not, and what it does to the version seen.
///
/// `None` says that none is due.  `Some(Some(current))` is a delivery of a
/// change, which moves the version seen to `current`; `Some(None)` is a
/// delivery because the deadline has passed or its timer has gone off,
/// which leaves the version seen alone.
pub open spec fn due_of(verdict: Verdict, fired: bool, current: usize) -> Option<Option<usize>> {
    match verdict {
        Verdict::Overdue => Some(None),
        Verdict::Changed => Some(Some(current)),
        Verdict::Arm(_) => if fired {
            Some(None)
        } else {
            None
        },
        Verdict::Park => None,
    }
}

impl Verdict {
    /// Decides whether a delivery is due, and what it does to the version
    /// seen.
    pub fn due(self, fired: bool, current: usize) -> (due: Option<Option<usize>>)
        ensures
            due == due_of(self, fired, current),
    {
        match self {
            Verdict::Overdue => Some(None),
            Verdict::Changed => Some(Some(current)),
            Verdict::Arm(_) => {
                if fired {
                    Some(None)
                } else {
                    None
                }
            },
            Verdict::Park => None,
        }
    }
}

impl Interval {
    /// No throttle and no deadline: every change is delivered, and nothing
    /// else.
    pub fn unbounded() -> (interval: Interval)
        ensures
            interval == (Interval { min: 0, max: None }),
    {
        Interval { min: 0, max: None }
    }

    /// The time before which nothing is delivered, if `now` is before it.
    pub fn throttle(&self, last: u64, now: u64) -> (until: Option<u64>)
        ensures
            until == throttled_until(*self, last, now),
    {
        if self.min != 0 {
            let start = last.saturating_add(self.min);
            if now < start {
                return Some(start);
            }
        }
        None
    }

    /// Decides what to do at time `now`, the throttle being over.
    pub fn verdict(&self, last: u64, now: u64, seen: usize, current: usize) -> (verdict: Verdict)
        ensures
            verdict == verdict_of(*self, last, now, seen, current),
    {
        match self.max {
            Some(max) => {
                let end = last.saturating_add(max);
                if now > end {
                    Verdict::Overdue
                } else if seen < current {
                    Verdict::Changed
                } else {
                    Verdict::Arm(end)
                }
            },
            None => {
                if seen < current {
                    Verdict::Changed
                } else {
                    Verdict::Park
                }
            },
        }
    }
}

/// A value with a version, and the tasks that wait for it to change.
///
/// `W` is the number of receivers that can be parked at a time.
#[verifier::reject_recursive_types(T)]
pub struct Watch<T, const W: usize> {
    val: Cell<T, 1, 1>,
    version: AtomicUsize,
    producer: Notify<W>,
}

impl<T, const W: usize> Watch<T, W> {
    /// A watch on `init`, at version zero.
    pub fn new(init: T) -> (watch: Self) {
        Watch { val: Cell::new_with(init), version: AtomicUsize::new(0), producer: Notify::new() }
    }

    /// Replaces the value by `value`, moves the version on and wakes every
    /// receiver that waits.
    ///
    /// It is refused, and `value` handed back, if the value is being read
    /// or replaced by another task at this moment.
    pub fn try_send(&self, value: T) -> (sent: Result<(), Error<T>>)
        ensures
            sent matches Err(e) ==> e.input == value,
    {
        self.published(self.val.try_replace(value))
    }

    /// What `try_send` makes of the cell's answer.  If the value went in,
    /// the version moves on and every receiver that waits is woken; what the
    /// cell held before is dropped.  A refusal is handed on as it is.
    pub fn published(&self, before: Result<Option<T>, Error<T>>) -> (sent: Result<(), Error<T>>)
        ensures
            sent == (match before {
                Ok(_) => Ok::<(), Error<T>>(()),
                Err(e) => Err(e),
            }),
    {
        match before {
            Ok(_) => {
                self.publish();
                Ok(())
            },
            Err(e) => Err(e),
        }
    }

    /// A wait to replace the value by `value`, which rides out every
    /// refusal.
    pub fn send(&self, value: T) -> (wait: Sending<'_, T, W>)
        ensures
            wait.watch() == self,
            wait.value() == Some(value),
    {
        Sending { parent: self, replace: self.val.replace(value) }
    }

    /// A receiver that has seen version `version` of the value and is not
    /// parked.  This is what `subscribe` makes of the version that it read.
    pub fn receiver(&self, version: usize) -> (receiver: Receiver<'_, T, W>)
        ensures
            receiver.watch() == self,
            receiver.seen() == version,
    {
        Receiver { parent: self, version, wait_p: self.producer.listen() }
    }

    /// A receiver that has seen the value as it is now.
    pub fn subscribe(&self) -> (receiver: Receiver<'_, T, W>)
        ensures
            receiver.watch() == self,
    {
        self.receiver(self.version.load(Ordering::SeqCst))
    }

    /// Moves the version on and wakes every receiver that waits.
    fn publish(&self) {
        atomic::fetch_add(&self.version, 1);
        self.producer.notify_waiters();
    }

    /// Brings `version` up to the version of the value.  Returns whether
    /// that was newer; `version` never goes back.
    fn update(&self, version: &mut usize) -> (newer: bool)
        ensures
            newer == (*final(version) > *old(version)),
            *final(version) >= *old(version),
    {
        let current = self.version.load(Ordering::SeqCst);
        advance(version, current)
    }
}

impl<T: Clone, const W: usize> Watch<T, W> {
    /// A copy of the value, or `None` if it cannot be read: a sender that
    /// was refused because of a reader keeps the value locked until a send
    /// succeeds.  Another task's step in progress is waited out.
    pub fn data(&self) -> (copy: Option<T>) {
        let mut turns: usize = 0;
        while turns < usize::MAX
            decreases usize::MAX - turns,
        {
            match self.val.try_get() {
                Ok(held) => {
                    return Some(held.get().clone());
                },
                Err(e) => {
                    if !e.retry {
                        return None;
                    }
                },
            }
            turns = turns + 1;
        }
        None
    }
}

/// The wait that `Watch::send` starts.  It holds the new value until the
/// watch has taken it.
#[verifier::reject_recursive_types(T)]
pub struct Sending<'a, T, const W: usize> {
    parent: &'a Watch<T, W>,
    replace: Replace<'a, T, 1, 1>,
}

impl<'a, T, const W: usize> Sending<'a, T, W> {
    /// The watch that is sent to.
    pub closed spec fn watch(&self) -> &'a Watch<T, W> {
        self.parent
    }

    /// The value still to be sent; `None` once the wait is over.
    pub closed spec fn value(&self) -> Option<T> {
        self.replace.value()
    }

    /// Whether the wait is over.
    pub fn is_terminated(&self) -> (over: bool)
        ensures
            over == (self.value() is None),
    {
        self.replace.is_terminated()
    }

    /// One poll of the wait.  It must not be over yet.
    ///
    /// While the result is `Pending` the wait keeps its value, unchanged.
    /// `Ready` says that the watch holds it: the version has moved on and
    /// the receivers that waited have been woken.
    pub fn poll(&mut self, waker: &core::task::Waker) -> (polled: Poll<()>)
        requires
            old(self).value() is Some,
        ensures
            final(self).watch() == old(self).watch(),
            polled is Pending ==> final(self).value() == old(self).value(),
            polled is Ready ==> final(self).value() is None,
    {
        match self.replace.poll(waker) {
            Poll::Ready(_) => {
                self.parent.publish();
                Poll::Ready(())
            },
            Poll::Pending => Poll::Pending,
        }
    }
}

/// One task's view of a `Watch`: the version that it has seen.
#[verifier::reject_recursive_types(T)]
pub struct Receiver<'a, T, const W: usize> {
    parent: &'a Watch<T, W>,
    version: usize,
    wait_p: Listener<'a, W>,
}

impl<'a, T, const W: usize> Receiver<'a, T, W> {
    /// The watch that is received from.
    pub closed spec fn watch(&self) -> &'a Watch<T, W> {
        self.parent
    }

    /// The version that the receiver has seen.
    pub closed spec fn seen(&self) -> usize {
        self.version
    }

    /// A wait for the value to change.
    pub fn changed<'b>(&'b mut self) -> (wait: Changed<'b, 'a, T, W>)
        ensures
            wait.interval() == (Interval { min: 0, max: None }),
            wait.last_time() == 0,
            wait.seen() == old(self).seen(),
    {
        self.changed_interval(Interval::unbounded())
    }

    /// A wait for the value to change, or for the interval's deadline,
    /// that holds back what comes before the interval's throttle is over.
    pub fn changed_interval<'b>(&'b mut self, interval: Interval) -> (wait: Changed<'b, 'a, T, W>)
        ensures
            wait.interval() == interval,
            wait.last_time() == 0,
            wait.seen() == old(self).seen(),
    {
        Changed { parent: self, interval, last_time: 0 }
    }
}

impl<'a, T: Clone, const W: usize> Receiver<'a, T, W> {
    /// A copy of the value, as `Watch::data` gives it.
    pub fn data(&self) -> (copy: Option<T>) {
        self.parent.data()
    }
}

/// The wait that `Receiver::changed` and `Receiver::changed_interval`
/// start: a stream of the values that the receiver has not seen.
#[verifier::reject_recursive_types(T)]
pub struct Changed<'b, 'a, T, const W: usize> {
    parent: &'b mut Receiver<'a, T, W>,
    interval: Interval,
    last_time: u64,
}

impl<'b, 'a, T, const W: usize> Changed<'b, 'a, T, W> {
    /// How often the receiver wants to hear of the value.
    pub closed spec fn interval(&self) -> Interval {
        self.interval
    }

    /// The time of the last delivery; zero before the first.
    pub closed spec fn last_time(&self) -> u64 {
        self.last_time
    }

    /// The version that the receiver has seen.
    pub closed spec fn seen(&self) -> usize {
        self.parent.version
    }

    /// The time before which nothing is delivered, if `now` is before it.
    /// The task then sleeps until that time.
    pub fn throttle(&self, now: u64) -> (until: Option<u64>)
        ensures
            until == throttled_until(self.interval(), self.last_time(), now),
    {
        self.interval.throttle(self.last_time, now)
    }
}

impl<'b, 'a, T: Clone, const W: usize> Changed<'b, 'a, T, W> {
    /// Delivers `copy`, the value as it was read, at time `now`; the
    /// receiver has then seen version `fresh`, if one is given.  If the
    /// value could not be read, `copy` is `None` and nothing changes.
    pub fn deliver(&mut self, now: u64, fresh: Option<usize>, copy: Option<T>) -> (item: Option<T>)
        requires
            fresh matches Some(current) ==> old(self).seen() <= current,
        ensures
            item == copy,
            final(self).interval() == old(self).interval(),
            final(self).last_time() == (if copy is Some {
                now
            } else {
                old(self).last_time()
            }),
            final(self).seen() == (match (copy, fresh) {
                (Some(_), Some(current)) => current,
                _ => old(self).seen(),
            }),
    {
        match copy {
            Some(copy) => {
                match fresh {
                    Some(current) => {
                        advance(&mut self.parent.version, current);
                    },
                    None => {},
                }
                self.last_time = now;
                Some(copy)
            },
            None => None,
        }
    }

    /// The verdict at time `now`, when the value is at version `current`.
    pub fn verdict(&self, now: u64, current: usize) -> (verdict: Verdict)
        ensures
            verdict == verdict_of(self.interval(), self.last_time(), now, self.seen(), current),
    {
        self.interval.verdict(self.last_time, now, self.parent.version, current)
    }

    /// One look of the wait at time `now`, when the value is at version
    /// `current` and the throttle is over.
    ///
    /// `fired` tells whether the timer for the deadline has gone off, and
    /// `copy` is the value as it was read, or `None` if it was not or could
    /// not be.  The verdict on `now` and `current`, with `fired`, says
    /// whether a delivery is due; one that is due is made whenever there is
    /// a value to deliver.  Only a delivery made because the value has
    /// changed moves the version seen, to `current`.
    ///
    /// `Ok` carries the value delivered, at time `now`.  `Err` says that
    /// none was, and that the task still has to be parked on the watch's
    /// events; the wait is then as it was.
    pub fn look(&mut self, now: u64, current: usize, fired: bool, copy: Option<T>) -> (looked: Result<T, ()>)
        ensures
            final(self).interval() == old(self).interval(),
            looked == (match (
                due_of(
                    verdict_of(old(self).interval(), old(self).last_time(), now, old(self).seen(), current),
                    fired,
                    current,
                ),
                copy,
            ) {
                (Some(_), Some(value)) => Ok::<T, ()>(value),
                _ => Err::<T, ()>(()),
            }),
            final(self).last_time() == (if looked is Ok {
                now
            } else {
                old(self).last_time()
            }),
            final(self).seen() == (match (
                looked,
                due_of(
                    verdict_of(old(self).interval(), old(self).last_time(), now, old(self).seen(), current),
                    fired,
                    current,
                ),
            ) {
                (Ok(_), Some(Some(fresh))) => fresh,
                _ => old(self).seen(),
            }),
            final(self).seen() >= old(self).seen(),
    {
        let verdict = self.verdict(now, current);
        match verdict.due(fired, current) {
            Some(fresh) => {
                match self.deliver(now, fresh, copy) {
                    Some(value) => Ok(value),
                    None => Err(()),
                }
            },
            None => Err(()),
        }
    }

    /// One poll of the wait at time `now`, the throttle being over.
    ///
    /// `sleep` arms a timer for the time it is given and tells whether
    /// that time has passed already; it is called only if the interval has
    /// a deadline and no delivery is due yet.  The value's version is read,
    /// the value itself is read if a delivery is due, and `look` decides on
    /// both.  If nothing is delivered the task is parked on the watch's
    /// events, and the version is read once more: a change that came
    /// between the first look and the parking is delivered now.  If there is
    /// none but an event had arrived, the parking is done again: the result
    /// is `Pending` only when the task is parked.
    ///
    /// What is ready is always a value, delivered at time `now`.  While the
    /// result is `Pending` the wait is as it was.  The version seen never
    /// goes back.
    pub fn poll_next<F: FnMut(u64) -> bool>(&mut self, now: u64, waker: &core::task::Waker, mut sleep: F) -> (polled:
        Poll<Option<T>>)
        requires
            forall|at: u64| sleep.requires((at,)),
        ensures
            final(self).interval() == old(self).interval(),
            final(self).seen() >= old(self).seen(),
            polled matches Poll::Ready(item) ==> item is Some && final(self).last_time() == now,
            polled is Pending ==> final(self).last_time() == old(self).last_time() && final(self).seen() == old(self).seen(),
    {
        let current = self.parent.parent.version.load(Ordering::SeqCst);
        let fired = match self.verdict(now, current) {
            Verdict::Arm(end) => sleep(end),
            _ => false,
        };
        let copy = if self.verdict(now, current).due(fired, current).is_some() {
            self.parent.data()
        } else {
            None
        };
        match self.look(now, current, fired, copy) {
            Ok(copy) => {
                return Poll::Ready(Some(copy));
            },
            Err(_) => {},
        }
        let mut turns: usize = 0;
        while turns < usize::MAX
            invariant
                self.interval() == old(self).interval(),
                self.last_time() == old(self).last_time(),
                self.seen() == old(self).seen(),
            decreases usize::MAX - turns,
        {
            let parked = self.parent.wait_p.poll_next(waker).is_pending();
            let mut fresh = self.parent.version;
            if self.parent.parent.update(&mut fresh) {
                let copy = self.parent.data();
                match self.deliver(now, Some(fresh), copy) {
                    Some(copy) => {
                        return Poll::Ready(Some(copy));
                    },
                    None => {},
                }
            }
            if parked {
                return Poll::Pending;
            }
            turns = turns + 1;
        }
        task::wake_by_ref(waker);
        Poll::Pending
    }

    /// One poll of the wait for a single value: `poll_next`, with the value
    /// as the whole result.
    pub fn poll<F: FnMut(u64) -> bool>(&mut self, now: u64, waker: &core::task::Waker, sleep: F) -> (polled:
        Poll<T>)
        requires
            forall|at: u64| sleep.requires((at,)),
        ensures
            final(self).interval() == old(self).interval(),
            final(self).seen() >= old(self).seen(),
            polled is Ready ==> final(self).last_time() == now,
            polled is Pending ==> final(self).last_time() == old(self).last_time() && final(self).seen() == old(self).seen(),
    {
        self.poll_next(now, waker, sleep).item()
    }
}

} // verus!
