//! A versioned notification: every `notify` is an edge that all listeners
//! see, however many of them there are.

use vstd::prelude::*;
use core::sync::atomic::AtomicUsize;
use core::sync::atomic::Ordering;
use crate::store::atomic;
use crate::task;
use crate::task::Poll;
use crate::waker::entity::WakerEntity;
use crate::waker::pool::WakerPool;
use crate::waker::pool::WakerToken;

verus! {

/// The version after a notification: one more, wrapping round at the top of
/// the range.
pub open spec fn bumped(version: usize) -> usize {
    if version == usize::MAX {
        0
    } else {
        (version + 1) as usize
    }
}

/// The version that a listener has seen, after it looked at `current`.
pub open spec fn seen_after(seen: usize, current: usize) -> usize {
    if seen < current {
        current
    } else {
        seen
    }
}

/// Brings a listener's version up to `current`.  Returns whether `current`
/// was newer; the listener's version never goes back.
pub fn advance(seen: &mut usize, current: usize) -> (newer: bool)
    ensures
        newer == (*old(seen) < current),
        *final(seen) == seen_after(*old(seen), current),
        *final(seen) >= *old(seen),
{
    if *seen < current {
        *seen = current;
        true
    } else {
        false
    }
}

/// The version after `n` notifications.
pub open spec fn version_after(version: usize, n: nat) -> usize
    decreases n,
{
    if n == 0 {
        version
    } else {
        bumped(version_after(version, (n - 1) as nat))
    }
}

/// The version that a listener has seen after it looked at each of
/// `looks`, in this order.
pub open spec fn seen_through(seen: usize, looks: Seq<usize>) -> usize
    decreases looks.len(),
{
    if looks.len() == 0 {
        seen
    } else {
        seen_after(seen_through(seen, looks.drop_last()), looks.last())
    }
}

proof fn lemma_version_after(version: usize, n: nat)
    requires
        version + n <= usize::MAX,
    ensures
        version_after(version, n) == version + n,
    decreases n,
{
    if n > 0 {
        lemma_version_after(version, (n - 1) as nat);
    }
}

/// Every notification reaches every listener that was there before it.  A
/// listener that has seen a version no newer than the counter finds, after
/// one notification or more, a version newer than the one it has seen: its
/// next poll is ready, and takes all of them as seen at once.
///
/// The counter wraps round at `usize::MAX`; the law is stated for the runs
/// that stay below.
pub proof fn law_notify_reaches_earlier_listeners(seen: usize, version: usize, n: nat)
    requires
        seen <= version,
        n >= 1,
        version + n <= usize::MAX,
    ensures
        seen < version_after(version, n),
        seen_after(seen, version_after(version, n)) == version_after(version, n),
{
    lemma_version_after(version, n);
}

/// One edge makes a listener ready once: when it has taken a version as
/// seen, the same version does not make it ready again.
pub proof fn law_ready_once_per_edge(seen: usize, current: usize)
    ensures
        !(seen_after(seen, current) < current),
        seen_after(seen_after(seen, current), current) == seen_after(seen, current),
{
}

/// What a listener has seen never goes back: whatever versions it looks at,
/// and in whatever order they reach it, each look leaves it with a version
/// at least as new as the look before.
pub proof fn law_seen_never_goes_back(seen: usize, looks: Seq<usize>, earlier: int, later: int)
    requires
        0 <= earlier <= later <= looks.len(),
    ensures
        seen <= seen_through(seen, looks.take(earlier)) <= seen_through(seen, looks.take(later)),
    decreases later,
{
    if later == 0 {
        assert(looks.take(0) =~= Seq::<usize>::empty());
    } else if earlier == later {
        law_seen_never_goes_back(seen, looks, 0, earlier - 1);
        assert(looks.take(later).drop_last() =~= looks.take(later - 1));
    } else {
        law_seen_never_goes_back(seen, looks, earlier, later - 1);
        assert(looks.take(later).drop_last() =~= looks.take(later - 1));
    }
}

/// A version counter and the tasks that wait for it to move.
///
/// `W` is the number of tasks that can be parked at a time.
pub struct Notify<const W: usize> {
    version: AtomicUsize,
    wakers: WakerPool<(), W>,
}

impl<const W: usize> Notify<W> {
    /// A `Notify` at version zero, without parked tasks.
    pub fn new() -> (notify: Self) {
        Notify { version: AtomicUsize::new(0), wakers: WakerPool::new() }
    }

    /// Moves the version on, then wakes every parked task.  Returns the
    /// number of tasks woken, which is never more than `W`.
    pub fn notify(&self) -> (num: usize)
        ensures
            num <= W,
    {
        atomic::fetch_add(&self.version, 1);
        self.wakers.wake_all()
    }

    /// A listener that has seen the version as it is now, not yet parked.
    pub fn listen(&self) -> (listener: Listener<'_, W>)
        ensures
            listener.notify() == self,
            !listener.is_registered(),
    {
        Listener { parent: self, seen: self.version.load(Ordering::SeqCst), token: None }
    }
}

/// One task's wait for the version to move.
///
/// The listener remembers the version that it has seen.  Any number of
/// notifications between two polls make it ready once.
pub struct Listener<'a, const W: usize> {
    parent: &'a Notify<W>,
    seen: usize,
    token: Option<WakerToken<'a, (), W>>,
}

impl<'a, const W: usize> Listener<'a, W> {
    /// The `Notify` that is listened to.
    pub closed spec fn notify(&self) -> &'a Notify<W> {
        self.parent
    }

    /// The version that the listener has seen.
    pub closed spec fn seen(&self) -> usize {
        self.seen
    }

    /// Whether the listener holds a place among the parked tasks.
    pub closed spec fn is_registered(&self) -> bool {
        self.token is Some
    }

    /// Brings the version seen up to the counter.  Returns whether the
    /// counter was ahead.
    fn catch_up(&mut self) -> (newer: bool)
        ensures
            newer == (final(self).seen() > old(self).seen()),
            final(self).seen() >= old(self).seen(),
            final(self).notify() == old(self).notify(),
            final(self).is_registered() == old(self).is_registered(),
    {
        let current = self.parent.version.load(Ordering::SeqCst);
        advance(&mut self.seen, current)
    }

    /// Parks `waker`: into the listener's place if it has or gets one, or
    /// else by waking it at once, so that the task polls again.
    fn park(&mut self, waker: &core::task::Waker)
        ensures
            old(self).is_registered() ==> final(self).is_registered(),
            final(self).notify() == old(self).notify(),
            final(self).seen() == old(self).seen(),
    {
        if self.token.is_none() {
            match self.parent.wakers.register() {
                Ok(token) => {
                    self.token = Some(token);
                },
                Err(_) => {},
            }
        }
        match &self.token {
            Some(token) => {
                token.swap(WakerEntity::new(task::another(waker), ()));
            },
            None => {
                task::wake_by_ref(waker);
            },
        }
    }

    /// One poll of the wait.
    ///
    /// If the version has moved past the one seen, the listener takes it as
    /// seen and is ready.  If not, it parks `waker` and looks once more: a
    /// notification that came between the first look and the parking, whose
    /// wake-up found no waker yet, is found by the second look.
    ///
    /// The listener is ready exactly when the version seen has moved, and it
    /// never moves back.
    pub fn poll(&mut self, waker: &core::task::Waker) -> (polled: Poll<()>)
        ensures
            polled is Ready <==> final(self).seen() > old(self).seen(),
            final(self).seen() >= old(self).seen(),
            old(self).is_registered() ==> final(self).is_registered(),
            final(self).notify() == old(self).notify(),
    {
        if self.catch_up() {
            return Poll::Ready(());
        }
        self.park(waker);
        if self.catch_up() {
            Poll::Ready(())
        } else {
            Poll::Pending
        }
    }
}

} // verus!
