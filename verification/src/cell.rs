//! An asynchronous single-slot cell: get, set, take and replace.

use vstd::prelude::*;
use crate::error::Error;
use crate::notify::Listener;
use crate::notify::Notify;
use crate::store::cell;
use crate::store::cell::Hold;
use crate::store::cell::Slot;
use crate::task;
use crate::task::Poll;

verus! {

/// Which side of a cell a released reference makes progress for.
#[derive(Clone, Copy, Debug, PartialEq, Eq, Structural)]
pub enum Signal {
    /// Other references are still out: nobody can go on yet.
    Nobody,
    /// The slot is now empty: those who wait to fill it can go on.
    Consumer,
    /// The value is now free of references: those who wait to take or
    /// replace it can go on.
    Producer,
}

/// The signal owed when a reference is released.
///
/// `count` is the number of references that were out just before, the
/// released one included, as far as the slot could tell; `marked` says that
/// the slot is to be emptied when the last one is gone.
pub open spec fn signal_of(count: Result<usize, ach_util::MemoryState>, marked: bool) -> Signal {
    if count == Ok::<usize, ach_util::MemoryState>(1) {
        if marked {
            Signal::Consumer
        } else {
            Signal::Producer
        }
    } else {
        Signal::Nobody
    }
}

/// Decides whom to notify when a reference is released.
pub fn release_signal(count: Result<usize, ach_util::MemoryState>, marked: bool) -> (signal: Signal)
    ensures
        signal == signal_of(count, marked),
    opens_invariants none
    no_unwind
{
    match count {
        Ok(n) => {
            if n == 1 {
                if marked {
                    Signal::Consumer
                } else {
                    Signal::Producer
                }
            } else {
                Signal::Nobody
            }
        },
        Err(_) => Signal::Nobody,
    }
}

/// A counted reference to the value in a `Cell`.
///
/// While it is out the value can be neither taken nor replaced.  When the
/// last one is dropped the cell notifies whoever that lets go on.
#[verifier::reject_recursive_types(T)]
pub struct Ref<'a, T, const MP: usize, const MC: usize> {
    parent: &'a Cell<T, MP, MC>,
    val: Hold<'a, T>,
}

impl<'a, T, const MP: usize, const MC: usize> Ref<'a, T, MP, MC> {
    /// The cell that the reference reads.
    pub closed spec fn cell(&self) -> &'a Cell<T, MP, MC> {
        self.parent
    }

    /// The value that the reference keeps alive.
    pub fn get(&self) -> (val: &T) {
        cell::value(&self.val)
    }
}

impl<'a, T, const MP: usize, const MC: usize> core::ops::Deref for Ref<'a, T, MP, MC> {
    type Target = T;

    fn deref(&self) -> (val: &T) {
        cell::value(&self.val)
    }
}

impl<'a, T, const MP: usize, const MC: usize> Drop for Ref<'a, T, MP, MC> {
    /// Notifies, if this is the last reference out: those who wait to fill
    /// the cell if the slot is thereby emptied, else those who wait for the
    /// value to be free.
    fn drop(&mut self)
        opens_invariants none
        no_unwind
    {
        let count = cell::ref_num(&self.val);
        let marked = cell::will_remove(&self.val);
        match release_signal(count, marked) {
            Signal::Nobody => {},
            Signal::Consumer => {
                self.parent.consumer.notify_one();
            },
            Signal::Producer => {
                self.parent.producer.notify_one();
            },
        }
    }
}

/// A slot for one value, shared by any number of tasks.
///
/// `consumer` carries the events made by those who empty the slot, for
/// those who wait to fill it (at most `MP` parked); `producer` carries the
/// events made by those who fill it, for those who wait for a value (at
/// most `MC` parked).
#[verifier::reject_recursive_types(T)]
pub struct Cell<T, const MP: usize, const MC: usize> {
    val: Slot<T>,
    consumer: Notify<MP>,
    producer: Notify<MC>,
}

impl<T, const MP: usize, const MC: usize> Cell<T, MP, MC> {
    /// An empty cell.
    pub fn new() -> (cell: Self) {
        Cell { val: cell::empty(), consumer: Notify::new(), producer: Notify::new() }
    }

    /// A cell that holds `val`.
    pub fn new_with(val: T) -> (cell: Self) {
        let slot = cell::empty();
        let _set = cell::try_set(&slot, val);
        Cell { val: slot, consumer: Notify::new(), producer: Notify::new() }
    }

    /// The slot that holds the value.
    pub closed spec fn raw(&self) -> &Slot<T> {
        &self.val
    }

    /// The slot that holds the value, for what only the slot itself can do:
    /// to look at the value without counting a reference.
    pub fn slot(&self) -> (slot: &Slot<T>)
        ensures
            slot == self.raw(),
    {
        &self.val
    }

    /// Tries to get a reference to the value.
    ///
    /// It is refused if the cell is empty, or in the middle of another
    /// task's step.
    pub fn try_get(&self) -> (got: Result<Ref<'_, T, MP, MC>, Error<()>>)
        ensures
            got matches Ok(r) ==> r.cell() == self,
    {
        match cell::try_get(&self.val) {
            Ok(val) => Ok(Ref { parent: self, val }),
            Err(e) => Err(e),
        }
    }

    /// A wait for a reference to the value, which rides out another task's
    /// step and reports any other refusal.
    pub fn get(&self) -> (wait: Get<'_, T, MP, MC>)
        ensures
            wait.cell() == self,
    {
        Get { parent: self, wait_p: self.producer.listen() }
    }

    /// Tries to fill the cell with `val`, and on success notifies those who
    /// wait for a value.
    ///
    /// It is refused, and `val` handed back, if the cell is full, or in the
    /// middle of another task's step.
    pub fn try_set(&self, val: T) -> (set: Result<(), Error<T>>)
        ensures
            set matches Err(e) ==> e.input == val,
    {
        self.producer.notify_if_ok(cell::try_set(&self.val, val))
    }

    /// A wait to fill the cell with `val`, which rides out another task's
    /// step and reports any other refusal.
    pub fn set(&self, val: T) -> (wait: Setter<'_, T, MP, MC>)
        ensures
            wait.cell() == self,
            wait.value() == Some(val),
    {
        Setter { parent: self, wait_c: self.consumer.listen(), val: Some(val) }
    }

    /// Tries to take the value out, and on success notifies those who wait
    /// to fill the cell.  An empty cell gives `Ok(None)`.
    ///
    /// It is refused if references to the value are out, or the cell is in
    /// the middle of another task's step.
    pub fn try_take(&self) -> (taken: Result<Option<T>, Error<()>>) {
        self.consumer.notify_if_ok(cell::try_take(&self.val))
    }

    /// A wait to take the value out, which rides out every refusal.
    pub fn take(&self) -> (wait: Take<'_, T, MP, MC>)
        ensures
            wait.cell() == self,
    {
        Take { parent: self, wait_p: self.producer.listen(), wait_c: self.consumer.listen() }
    }

    /// Tries to put `val` in the place of the value held, which is handed
    /// out, and on success notifies those who wait for a value.
    ///
    /// It is refused, and `val` handed back, if references to the value are
    /// out, or the cell is in the middle of another task's step.
    pub fn try_replace(&self, val: T) -> (before: Result<Option<T>, Error<T>>)
        ensures
            before matches Err(e) ==> e.input == val,
    {
        self.producer.notify_if_ok(cell::try_replace(&self.val, val))
    }

    /// A wait to replace the value by `val`, which rides out every refusal.
    pub fn replace(&self, val: T) -> (wait: Replace<'_, T, MP, MC>)
        ensures
            wait.cell() == self,
            wait.value() == Some(val),
    {
        Replace {
            parent: self,
            wait_p: self.producer.listen(),
            wait_c: self.consumer.listen(),
            val: Some(val),
        }
    }
}

/// The wait that `Cell::get` starts.
#[verifier::reject_recursive_types(T)]
pub struct Get<'a, T, const MP: usize, const MC: usize> {
    parent: &'a Cell<T, MP, MC>,
    wait_p: Listener<'a, MC>,
}

impl<'a, T, const MP: usize, const MC: usize> Get<'a, T, MP, MC> {
    /// The cell that is waited on.
    pub closed spec fn cell(&self) -> &'a Cell<T, MP, MC> {
        self.parent
    }

    /// What the wait makes of the cell's answer to a try: a reference, or a
    /// refusal that is not transient, is the result of the wait; a
    /// transient refusal is none, and the wait goes on.
    pub fn settle(got: Result<Ref<'a, T, MP, MC>, Error<()>>) -> (result: Option<
        Result<Ref<'a, T, MP, MC>, Error<()>>,
    >)
        ensures
            result == (match got {
                Ok(r) => Some(got),
                Err(e) => if e.retry {
                    None
                } else {
                    Some(got)
                },
            }),
    {
        match got {
            Ok(r) => Some(Ok(r)),
            Err(e) => {
                if e.retry {
                    None
                } else {
                    Some(Err(e))
                }
            },
        }
    }

    /// One poll of the wait.
    ///
    /// The cell is tried first.  A transient refusal parks the task on the
    /// producers' events and, if one has arrived meanwhile, tries again; any
    /// other refusal is the result.  A refusal that is handed out is
    /// therefore never transient.
    pub fn poll(&mut self, waker: &core::task::Waker) -> (polled: Poll<Result<Ref<'a, T, MP, MC>, Error<()>>>)
        ensures
            final(self).cell() == old(self).cell(),
            polled matches Poll::Ready(Ok(r)) ==> r.cell() == old(self).cell(),
            polled matches Poll::Ready(Err(e)) ==> !e.retry,
    {
        let mut turns: usize = 0;
        while turns < usize::MAX
            invariant
                self.cell() == old(self).cell(),
            decreases usize::MAX - turns,
        {
            match Self::settle(self.parent.try_get()) {
                Some(result) => {
                    return Poll::Ready(result);
                },
                None => {
                    if self.wait_p.poll(waker).is_pending() {
                        return Poll::Pending;
                    }
                },
            }
            turns = turns + 1;
        }
        task::wake_by_ref(waker);
        Poll::Pending
    }
}

/// The wait that `Cell::set` starts.  It holds the value until the cell has
/// taken it or has refused it for good.
#[verifier::reject_recursive_types(T)]
pub struct Setter<'a, T, const MP: usize, const MC: usize> {
    parent: &'a Cell<T, MP, MC>,
    wait_c: Listener<'a, MP>,
    val: Option<T>,
}

impl<'a, T, const MP: usize, const MC: usize> Setter<'a, T, MP, MC> {
    /// The cell that is waited on.
    pub closed spec fn cell(&self) -> &'a Cell<T, MP, MC> {
        self.parent
    }

    /// The value still to be set; `None` once the wait is over.
    pub closed spec fn value(&self) -> Option<T> {
        self.val
    }

    /// Whether the wait is over.
    pub fn is_terminated(&self) -> (over: bool)
        ensures
            over == (self.value() is None),
    {
        self.val.is_none()
    }

    /// Takes the cell's answer to a try.  A value that went in, or that was
    /// refused for good, is gone from the wait, and the answer is the result
    /// of the wait; a value that was refused for the moment is kept for the
    /// next try, and there is no result yet.
    pub fn settle(&mut self, set: Result<(), Error<T>>) -> (result: Option<Result<(), Error<T>>>)
        ensures
            final(self).cell() == old(self).cell(),
            result == (match set {
                Ok(_) => Some(Ok::<(), Error<T>>(())),
                Err(e) => if e.retry {
                    None
                } else {
                    Some(Err::<(), Error<T>>(e))
                },
            }),
            final(self).value() == (match set {
                Ok(_) => None::<T>,
                Err(e) => if e.retry {
                    Some(e.input)
                } else {
                    None
                },
            }),
    {
        match set {
            Ok(_) => {
                self.val = None;
                Some(Ok(()))
            },
            Err(e) => {
                if e.retry {
                    self.val = Some(e.input);
                    None
                } else {
                    self.val = None;
                    Some(Err(e))
                }
            },
        }
    }

    /// One poll of the wait.  It must not be over yet.
    ///
    /// While the result is `Pending` the wait keeps its value, unchanged.
    /// `Ready(Ok)` says that the cell took it.  `Ready(Err)` hands it back
    /// in the error, which is never a transient one.  So the value is in
    /// exactly one place at any time: with the wait, in the cell, or with
    /// the caller.
    pub fn poll(&mut self, waker: &core::task::Waker) -> (polled: Poll<Result<(), Error<T>>>)
        requires
            old(self).value() is Some,
        ensures
            final(self).cell() == old(self).cell(),
            polled is Pending ==> final(self).value() == old(self).value(),
            polled is Ready ==> final(self).value() is None,
            polled matches Poll::Ready(Err(e)) ==> Some(e.input) == old(self).value() && !e.retry,
    {
        let mut turns: usize = 0;
        while turns < usize::MAX
            invariant
                self.cell() == old(self).cell(),
                self.value() == old(self).value(),
                self.value() is Some,
            decreases usize::MAX - turns,
        {
            let val = self.val.take().unwrap();
            let set = self.parent.try_set(val);
            match self.settle(set) {
                Some(result) => {
                    return Poll::Ready(result);
                },
                None => {
                    if self.wait_c.poll(waker).is_pending() {
                        return Poll::Pending;
                    }
                },
            }
            turns = turns + 1;
        }
        task::wake_by_ref(waker);
        Poll::Pending
    }
}

/// The wait that `Cell::take` starts.
#[verifier::reject_recursive_types(T)]
pub struct Take<'a, T, const MP: usize, const MC: usize> {
    parent: &'a Cell<T, MP, MC>,
    wait_p: Listener<'a, MC>,
    wait_c: Listener<'a, MP>,
}

impl<'a, T, const MP: usize, const MC: usize> Take<'a, T, MP, MC> {
    /// The cell that is waited on.
    pub closed spec fn cell(&self) -> &'a Cell<T, MP, MC> {
        self.parent
    }

    /// What the wait makes of the cell's answer to a try: what the cell
    /// gave up, a value or none, is the result of the wait; a refusal is no
    /// result, and the wait goes on.
    pub fn settle(taken: Result<Option<T>, Error<()>>) -> (result: Option<Option<T>>)
        ensures
            result == (match taken {
                Ok(held) => Some(held),
                Err(_) => None,
            }),
    {
        match taken {
            Ok(held) => Some(held),
            Err(_) => None,
        }
    }

    /// Whether the task is parked, given the polls of the two listeners: it
    /// is when both are pending.  An event on either side lets the wait try
    /// again.
    pub fn parked(p: Poll<()>, c: Poll<()>) -> (parked: bool)
        ensures
            parked == (p is Pending && c is Pending),
    {
        p.is_pending() && c.is_pending()
    }

    /// One poll of the wait.
    ///
    /// The cell is tried first, and `settle` says whether its answer ends
    /// the wait.  A refusal parks the task on the events of both sides, and
    /// `parked` says whether the poll ends pending or tries again.
    pub fn poll(&mut self, waker: &core::task::Waker) -> (polled: Poll<Option<T>>)
        ensures
            final(self).cell() == old(self).cell(),
    {
        let mut turns: usize = 0;
        while turns < usize::MAX
            invariant
                self.cell() == old(self).cell(),
            decreases usize::MAX - turns,
        {
            match Self::settle(self.parent.try_take()) {
                Some(held) => {
                    return Poll::Ready(held);
                },
                None => {},
            }
            let p = self.wait_p.poll(waker);
            let c = self.wait_c.poll(waker);
            if Self::parked(p, c) {
                return Poll::Pending;
            }
            turns = turns + 1;
        }
        task::wake_by_ref(waker);
        Poll::Pending
    }
}

/// The wait that `Cell::replace` starts.  It holds the new value until the
/// cell has taken it.
#[verifier::reject_recursive_types(T)]
pub struct Replace<'a, T, const MP: usize, const MC: usize> {
    parent: &'a Cell<T, MP, MC>,
    wait_p: Listener<'a, MC>,
    wait_c: Listener<'a, MP>,
    val: Option<T>,
}

impl<'a, T, const MP: usize, const MC: usize> Replace<'a, T, MP, MC> {
    /// The cell that is waited on.
    pub closed spec fn cell(&self) -> &'a Cell<T, MP, MC> {
        self.parent
    }

    /// The value still to be put in; `None` once the wait is over.
    pub closed spec fn value(&self) -> Option<T> {
        self.val
    }

    /// Whether the wait is over.
    pub fn is_terminated(&self) -> (over: bool)
        ensures
            over == (self.value() is None),
    {
        self.val.is_none()
    }

    /// Takes the cell's answer to a try.  If the new value went in it is
    /// gone from the wait, and what the cell held before is the result of
    /// the wait; if it was refused it is kept for the next try, and there is
    /// no result yet.
    pub fn settle(&mut self, before: Result<Option<T>, Error<T>>) -> (result: Option<Option<T>>)
        ensures
            final(self).cell() == old(self).cell(),
            result == (match before {
                Ok(held) => Some(held),
                Err(_) => None,
            }),
            final(self).value() == (match before {
                Ok(_) => None::<T>,
                Err(e) => Some(e.input),
            }),
    {
        match before {
            Ok(held) => {
                self.val = None;
                Some(held)
            },
            Err(e) => {
                self.val = Some(e.input);
                None
            },
        }
    }

    /// One poll of the wait.  It must not be over yet.
    ///
    /// The cell is tried; on a refusal the task is parked on the events of
    /// both sides and the cell is tried once more.  If that fails too and
    /// an event had arrived on either side, all of this is done again: the
    /// result is `Pending` only when the task is parked on both sides.
    ///
    /// While the result is `Pending` the wait keeps the new value,
    /// unchanged, and has handed out nothing; `Ready` hands out what the
    /// cell held, and the new value is in the cell.  A wait that is dropped
    /// while pending has thus neither placed the new value nor taken the
    /// old one.
    pub fn poll(&mut self, waker: &core::task::Waker) -> (polled: Poll<Option<T>>)
        requires
            old(self).value() is Some,
        ensures
            final(self).cell() == old(self).cell(),
            polled is Pending ==> final(self).value() == old(self).value(),
            polled is Ready ==> final(self).value() is None,
    {
        let mut turns: usize = 0;
        while turns < usize::MAX
            invariant
                self.cell() == old(self).cell(),
                self.value() == old(self).value(),
                self.value() is Some,
            decreases usize::MAX - turns,
        {
            let val = self.val.take().unwrap();
            let before = self.parent.try_replace(val);
            match self.settle(before) {
                Some(held) => {
                    return Poll::Ready(held);
                },
                None => {},
            }
            let p = self.wait_p.poll(waker);
            let c = self.wait_c.poll(waker);
            let val = self.val.take().unwrap();
            let before = self.parent.try_replace(val);
            match self.settle(before) {
                Some(held) => {
                    return Poll::Ready(held);
                },
                None => {},
            }
            if Take::<T, MP, MC>::parked(p, c) {
                return Poll::Pending;
            }
            turns = turns + 1;
        }
        task::wake_by_ref(waker);
        Poll::Pending
    }
}

} // verus!
