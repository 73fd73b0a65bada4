//! A registry of parked tasks with a fixed number of places.

use vstd::prelude::*;
use core::sync::atomic::AtomicBool;
use crate::error::Error;
use crate::store::array;
use crate::store::atomic;
use crate::store::cell;
use crate::waker::entity::WakerEntity;

verus! {

/// The right to one place in a `WakerPool`.
///
/// A place is reserved by `WakerPool::register` and given back when the
/// token is dropped; in between no other token names it.  The place may
/// stay empty: `swap` puts an entity there, and puts the next one in its
/// stead.
#[verifier::reject_recursive_types(T)]
pub struct WakerToken<'a, T, const N: usize> {
    pool: &'a WakerPool<T, N>,
    index: usize,
}

impl<'a, T, const N: usize> WakerToken<'a, T, N> {
    #[verifier::type_invariant]
    spec fn in_range(self) -> bool {
        self.index < N
    }

    /// The place that the token stands for.
    pub closed spec fn index(&self) -> usize {
        self.index
    }

    /// The pool that the place belongs to.
    pub closed spec fn pool(&self) -> &'a WakerPool<T, N> {
        self.pool
    }

    /// The place that the token stands for: always one of the pool's `N`.
    pub fn place(&self) -> (index: usize)
        ensures
            index == self.index(),
            index < N,
    {
        proof {
            use_type_invariant(self);
        }
        self.index
    }

    /// The entity that a swap leaves without a place, given the place's
    /// answer: the one that was there before, if the new one went in, or the
    /// new one, if it was refused.
    pub fn displaced(answer: Result<Option<WakerEntity<T>>, Error<WakerEntity<T>>>) -> (out: Option<
        WakerEntity<T>,
    >)
        ensures
            out == (match answer {
                Ok(before) => before,
                Err(refused) => Some(refused.input),
            }),
    {
        match answer {
            Ok(before) => before,
            Err(refused) => Some(refused.input),
        }
    }

    /// Puts `waker` into the token's place, and wakes the entity that is
    /// thereby left without one.
    ///
    /// An entity that was there before is woken at once if it had not been
    /// woken yet, so that no task is left waiting on a waker that nobody
    /// holds any more.  If the place is in the middle of being emptied by a
    /// notifier, `waker` cannot go in: it is woken at once instead, and the
    /// task polls again.
    pub fn swap(&self, waker: WakerEntity<T>) {
        proof {
            use_type_invariant(self);
        }
        match Self::displaced(array::try_replace_at(&self.pool.pool, self.index, waker)) {
            Some(entity) => {
                entity.wake();
            },
            None => {},
        }
    }
}

impl<'a, T, const N: usize> Drop for WakerToken<'a, T, N> {
    /// Takes the entity out of the token's place, unwoken, and gives the
    /// place back to the pool.
    fn drop(&mut self)
        opens_invariants none
        no_unwind
    {
        proof {
            use_type_invariant(&*self);
        }
        match array::get_at(&self.pool.pool, self.index) {
            Ok(entity) => {
                cell::remove(&entity);
            },
            Err(_) => {},
        }
        let _was = atomic::exchange(&self.pool.used[self.index], true, false);
    }
}

/// `N` places for parked tasks.
///
/// `used[i]` is raised while a token for place `i` is out; `pool` holds the
/// entities that were put into reserved places and not yet woken or
/// removed.
#[verifier::reject_recursive_types(T)]
pub struct WakerPool<T, const N: usize> {
    pool: ach_array::Array<WakerEntity<T>, N>,
    used: [AtomicBool; N],
}

/// What a search for a task to wake does after one answer of the array.
///
/// `found` is `None` when no entity was left, which ends the search without
/// a task woken; otherwise it tells whether the entity taken out still had
/// its waker, which ends the search with a task woken.  `None` lets the
/// search go on.
pub open spec fn search_verdict(found: Option<bool>) -> Option<bool> {
    match found {
        None => Some(false),
        Some(woke) => if woke {
            Some(true)
        } else {
            None
        },
    }
}

/// Decides what a search for a task to wake does after one answer of the
/// array.
pub fn search_step(found: Option<bool>) -> (verdict: Option<bool>)
    ensures
        verdict == search_verdict(found),
    opens_invariants none
    no_unwind
{
    match found {
        None => Some(false),
        Some(woke) => {
            if woke {
                Some(true)
            } else {
                None
            }
        },
    }
}

/// The number of entities taken out, after the array was asked once more:
/// one more if it gave one, and `None`, which ends the count, if it gave
/// none.
pub open spec fn taken_after(num: usize, found: bool) -> Option<usize> {
    if found {
        Some((num + 1) as usize)
    } else {
        None
    }
}

/// Counts one more answer of the array.
pub fn take_step(num: usize, found: bool) -> (next: Option<usize>)
    requires
        num < usize::MAX,
    ensures
        next == taken_after(num, found),
{
    if found {
        Some(num + 1)
    } else {
        None
    }
}

/// The answer of a flag to a try to raise it: `Ok` with the flag as it was
/// found, lowered, if the try raised it, `Err` if it was raised already.
pub open spec fn raise(flag: bool) -> Result<bool, bool> {
    if flag {
        Err(true)
    } else {
        Ok(false)
    }
}

/// The place that `register` reserves on flags that nobody else changes
/// meanwhile, trying them from `from` on: the first whose try to raise it
/// is answered by `Ok`.
pub open spec fn place_reserved(flags: Seq<bool>, from: int) -> Option<int>
    decreases flags.len() - from,
{
    if from < 0 || from >= flags.len() {
        None
    } else if raise(flags[from]) is Ok {
        Some(from)
    } else {
        place_reserved(flags, from + 1)
    }
}

/// `register` hands out the lowest place that is free, and fails only when
/// every place is reserved.  The flag of the place handed out was lowered
/// and is raised by the same atomic step, so no place that a token stands
/// for is handed out again until the token gives it back.
pub proof fn law_register_reserves_the_lowest_free_place(flags: Seq<bool>, from: int)
    requires
        0 <= from <= flags.len(),
    ensures
        match place_reserved(flags, from) {
            Some(place) => from <= place < flags.len() && !flags[place] && forall|i: int|
                from <= i < place ==> flags[i],
            None => forall|i: int| from <= i < flags.len() ==> flags[i],
        },
    decreases flags.len() - from,
{
    if from < flags.len() && flags[from] {
        law_register_reserves_the_lowest_free_place(flags, from + 1);
    }
}

/// A reservation flag that is not raised.
fn lowered(_place: usize) -> AtomicBool {
    AtomicBool::new(false)
}

/// `core::array::from_fn` over `lowered`: one flag per place, none raised.
#[verifier::external_body]
fn all_lowered<const N: usize>() -> (flags: [AtomicBool; N]) {
    core::array::from_fn(lowered)
}

impl<T, const N: usize> WakerPool<T, N> {
    /// A pool in which no place is reserved.
    pub fn new() -> (pool: Self) {
        WakerPool { pool: array::empty(), used: all_lowered() }
    }

    /// What `register` makes of a flag's answer to its try to raise it.
    ///
    /// `raised` is `Ok` when this call raised the flag of `place`, which
    /// was lowered: the place is then reserved, and the token stands for it
    /// and for no other.  It is `Err` when the flag was raised already:
    /// there is no token, and the place stays with whoever holds it.
    pub fn reserved(&self, place: usize, raised: Result<bool, bool>) -> (token: Option<WakerToken<'_, T, N>>)
        requires
            place < N,
        ensures
            token is Some <==> raised is Ok,
            token matches Some(t) ==> t.index() == place && t.pool() == self,
    {
        match raised {
            Ok(_) => Some(WakerToken { pool: self, index: place }),
            Err(_) => None,
        }
    }

    /// Reserves a place: the first one, in ascending order, whose flag this
    /// call could raise.  `Err` if it could raise none, which is the case
    /// when every place is reserved.  Each flag's answer is taken by
    /// `reserved`.
    pub fn register(&self) -> (token: Result<WakerToken<'_, T, N>, ()>)
        ensures
            token matches Ok(t) ==> t.index() < N && t.pool() == self,
            N == 0 ==> token is Err,
    {
        let mut i: usize = 0;
        while i < N
            invariant
                i <= N,
            decreases N - i,
        {
            match self.reserved(i, atomic::exchange(&self.used[i], false, true)) {
                Some(token) => {
                    return Ok(token);
                },
                None => {},
            }
            i = i + 1;
        }
        Err(())
    }

    /// Wakes one parked task and removes its entity.
    ///
    /// Entities are taken out in ascending order of their places until one
    /// of them still had its waker, which is then fired: after each the
    /// search does what `search_step` says.  Returns `false` if no entity
    /// was left, or if `N` entities in a row had been woken by someone else
    /// already.
    pub fn wake_one(&self) -> (woke: bool)
        ensures
            N == 0 ==> !woke,
        opens_invariants none
        no_unwind
    {
        let mut tried: usize = 0;
        while tried < N
            invariant
                tried <= N,
            decreases N - tried,
        {
            let found = match array::pop(&self.pool) {
                Some(entity) => Some(entity.wake()),
                None => None,
            };
            match search_step(found) {
                Some(woke) => {
                    return woke;
                },
                None => {},
            }
            tried = tried + 1;
        }
        false
    }

    /// Wakes every parked task and removes its entity.  Returns the number
    /// of entities taken out, counted as `take_step` says, which is never
    /// more than there are places.
    pub fn wake_all(&self) -> (num: usize)
        ensures
            num <= N,
    {
        let mut num: usize = 0;
        while num < N
            invariant
                num <= N,
            decreases N - num,
        {
            let found = match array::pop(&self.pool) {
                Some(entity) => {
                    entity.wake();
                    true
                },
                None => false,
            };
            match take_step(num, found) {
                Some(next) => {
                    num = next;
                },
                None => {
                    return num;
                },
            }
        }
        num
    }

    /// Keeps the entities for which `f` says `true` and removes the others.
    ///
    /// Each place is visited once, in ascending order.  A place that another
    /// task is just changing is passed over.
    pub fn retain<F: FnMut(&WakerEntity<T>) -> bool>(&self, mut f: F)
        requires
            forall|entity: &WakerEntity<T>| f.requires((entity,)),
    {
        let mut walk = array::iter(&self.pool);
        let mut seen: usize = 0;
        while seen < N
            invariant
                seen <= N,
                forall|entity: &WakerEntity<T>| f.requires((entity,)),
            decreases N - seen,
        {
            match array::next(&mut walk) {
                Some(entity) => {
                    if !f(cell::value(&entity)) {
                        cell::remove(&entity);
                    }
                },
                None => {
                    return ;
                },
            }
            seen = seen + 1;
        }
    }
}

} // verus!
