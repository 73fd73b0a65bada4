//! A registry of parked tasks without a limit: each task brings the node
//! that holds its entity.

use vstd::prelude::*;
use crate::store::linked;
use crate::waker::entity::WakerEntity;

verus! {

/// What a walk for the first waker does after a node that `woke` a task
/// or not, with `more` nodes behind it or none: a task woken ends the walk
/// with `true`, the end of the chain ends it with `false`, and `None` lets
/// it go on to the next node.
pub open spec fn first_verdict(woke: bool, more: bool) -> Option<bool> {
    if woke {
        Some(true)
    } else if more {
        None
    } else {
        Some(false)
    }
}

/// Decides what a walk for the first waker does after a node.
pub fn first_step(woke: bool, more: bool) -> (verdict: Option<bool>)
    ensures
        verdict == first_verdict(woke, more),
{
    if woke {
        Some(true)
    } else if more {
        None
    } else {
        Some(false)
    }
}

/// The number of tasks woken by a walk, after a node that `woke` one or
/// not.
pub open spec fn counted_after(num: usize, woke: bool) -> usize {
    if woke {
        (num + 1) as usize
    } else {
        num
    }
}

/// Counts a node of a walk that wakes every task.
pub fn counted(num: usize, woke: bool) -> (next: usize)
    requires
        num < usize::MAX,
    ensures
        next == counted_after(num, woke),
{
    if woke {
        num + 1
    } else {
        num
    }
}

/// The node that a walk for the first waker wakes, from node `from` on, in
/// a chain whose nodes hold a waker or not as `held` says; `None` if it
/// wakes none.
pub open spec fn first_woken(held: Seq<bool>, from: int) -> Option<int>
    decreases held.len() - from,
{
    if from < 0 || from >= held.len() {
        None
    } else {
        match first_verdict(held[from], from + 1 < held.len()) {
            Some(woke) => if woke {
                Some(from)
            } else {
                None
            },
            None => first_woken(held, from + 1),
        }
    }
}

/// The number of tasks that a walk which wakes every task has woken when
/// it has passed the nodes from `from` on, having woken `num` before.
pub open spec fn all_woken(held: Seq<bool>, from: int, num: usize) -> usize
    decreases held.len() - from,
{
    if from < 0 || from >= held.len() {
        num
    } else {
        all_woken(held, from + 1, counted_after(num, held[from]))
    }
}

/// The number of nodes, from `from` on, that hold a waker.
pub open spec fn wakers_from(held: Seq<bool>, from: int) -> nat
    decreases held.len() - from,
{
    if from < 0 || from >= held.len() {
        0
    } else {
        wakers_from(held, from + 1) + if held[from] {
            1nat
        } else {
            0nat
        }
    }
}

/// A walk for the first waker wakes the first node that holds one, and
/// only it; it wakes none exactly when no node holds one.
pub proof fn law_first_walk_wakes_the_first(held: Seq<bool>, from: int)
    requires
        0 <= from <= held.len(),
    ensures
        match first_woken(held, from) {
            Some(node) => from <= node < held.len() && held[node] && forall|i: int|
                from <= i < node ==> !held[i],
            None => forall|i: int| from <= i < held.len() ==> !held[i],
        },
    decreases held.len() - from,
{
    if from < held.len() && !held[from] {
        law_first_walk_wakes_the_first(held, from + 1);
    }
}

/// A walk that wakes every task counts each node that holds a waker once.
pub proof fn law_each_walk_counts_every_waker(held: Seq<bool>, from: int, num: usize)
    requires
        0 <= from <= held.len(),
        num + wakers_from(held, from) <= usize::MAX,
    ensures
        all_woken(held, from, num) == num + wakers_from(held, from),
    decreases held.len() - from,
{
    if from < held.len() {
        law_each_walk_counts_every_waker(held, from + 1, counted_after(num, held[from]));
    }
}

/// Wakes the first task, from `head` on, whose entity still had its waker.
///
/// Entities that were woken before are passed over and stay in the chain.
/// Returns `false` if no entity in the chain had a waker.  After each node
/// the walk does what `first_step` says.
pub fn wake_first<T>(head: &mut ach_linked::Node<WakerEntity<T>>) -> (woke: bool) {
    let mut node = head;
    let mut passed: usize = 0;
    while passed < usize::MAX
        decreases usize::MAX - passed,
    {
        let woke = linked::value(node).wake();
        let next = linked::next(node);
        match first_step(woke, next.is_some()) {
            Some(found) => {
                return found;
            },
            None => {
                node = next.unwrap();
            },
        }
        passed = passed + 1;
    }
    false
}

/// Wakes every task, from `head` on, whose entity still had its waker.
/// Returns how many were woken: each node is counted as `counted` says.
pub fn wake_each<T>(head: &mut ach_linked::Node<WakerEntity<T>>) -> (num: usize) {
    let mut node = head;
    let mut num: usize = 0;
    let mut passed: usize = 0;
    while passed < usize::MAX
        invariant
            num <= passed,
        decreases usize::MAX - passed,
    {
        num = counted(num, linked::value(node).wake());
        match linked::next(node) {
            Some(next) => {
                node = next;
            },
            None => {
                return num;
            },
        }
        passed = passed + 1;
    }
    num
}

/// The head of the chain of parked tasks.
///
/// Linking a node in is left to the caller, who has to promise that the
/// node stays where it is until it is unlinked again.  To wake, the chain
/// is taken off the list with `detach`, walked with `wake_first` or
/// `wake_each`, and linked back in.
#[verifier::reject_recursive_types(T)]
pub struct WakerList<T> {
    list: ach_linked::LinkedList<WakerEntity<T>>,
}

impl<T> WakerList<T> {
    /// A list without parked tasks.
    pub fn new() -> (list: Self) {
        WakerList { list: linked::empty() }
    }

    /// The list that the nodes are linked into.
    pub closed spec fn chain(&self) -> &ach_linked::LinkedList<WakerEntity<T>> {
        &self.list
    }

    /// The list that the nodes are linked into.
    pub fn links(&self) -> (list: &ach_linked::LinkedList<WakerEntity<T>>)
        ensures
            list == self.chain(),
    {
        &self.list
    }

    /// Takes the whole chain off the list and hands out its first node;
    /// `None` if no task is parked.
    pub fn detach(&self) -> (head: Option<&mut ach_linked::Node<WakerEntity<T>>>) {
        linked::take_all(&self.list)
    }
}

} // verus!
