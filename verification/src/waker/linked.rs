//! A registry of parked tasks without a limit, whose nodes hold the bare
//! waker.

use vstd::prelude::*;
use crate::store::linked;
use crate::store::option;
use crate::task;
use crate::waker::list::counted;
use crate::waker::list::first_step;

verus! {

/// Fires the waker that was taken out of a node, if the node gave one.
/// Returns whether it did.
pub fn fire(held: Result<Option<core::task::Waker>, crate::error::Error<()>>) -> (woke: bool)
    ensures
        woke == (held matches Ok(Some(_))),
{
    match held {
        Ok(Some(waker)) => {
            task::wake(waker);
            true
        },
        _ => false,
    }
}

/// Wakes the first task, from `head` on, whose node gave up a waker.
///
/// Nodes without a waker, and nodes that another task is just changing,
/// are passed over.  Returns `false` if no node gave one.
pub fn wake_first(head: &mut ach_linked::Node<ach_option::AchOption<core::task::Waker>>) -> (woke: bool) {
    let mut node = head;
    let mut passed: usize = 0;
    while passed < usize::MAX
        decreases usize::MAX - passed,
    {
        let woke = fire(option::try_take(linked::value(node)));
        let next = linked::next(node);
        match first_step(woke, next.is_some()) {
            Some(found) => {
                return found;
            },
            None => {
                node = next.unwrap();
            },
        }
        passed = passed + 1;
    }
    false
}

/// Wakes every task, from `head` on, whose node gave up a waker.  Returns
/// how many were woken.
pub fn wake_each(head: &mut ach_linked::Node<ach_option::AchOption<core::task::Waker>>) -> (num: usize) {
    let mut node = head;
    let mut num: usize = 0;
    let mut passed: usize = 0;
    while passed < usize::MAX
        invariant
            num <= passed,
        decreases usize::MAX - passed,
    {
        num = counted(num, fire(option::try_take(linked::value(node))));
        match linked::next(node) {
            Some(next) => {
                node = next;
            },
            None => {
                return num;
            },
        }
        passed = passed + 1;
    }
    num
}

/// The node that a task brings to a `WakerLinked`: a place for its waker.
pub struct WakerNode(pub ach_linked::Node<ach_option::AchOption<core::task::Waker>>);

impl WakerNode {
    /// A node without a waker, linked to nothing.
    pub fn new() -> (node: Self) {
        WakerNode(linked::node(option::vacant()))
    }

    /// Puts a copy of `waker` into the node, in the place of the one held.
    ///
    /// If the node is in the middle of being emptied by a notifier, the
    /// copy cannot go in: it is woken at once instead, and the task polls
    /// again.
    pub fn register(&self, waker: &core::task::Waker) {
        match option::try_replace(linked::value(&self.0), task::another(waker)) {
            Ok(_) => {},
            Err(refused) => {
                task::wake(refused.input);
            },
        }
    }
}

/// The head of the chain of parked tasks.
///
/// Linking a node in is left to the caller, who has to promise that the
/// node stays where it is until it is unlinked again.  To wake, the chain
/// is taken off the list with `detach`, walked with `wake_first` or
/// `wake_each`, and linked back in.
pub struct WakerLinked {
    linked: ach_linked::LinkedList<ach_option::AchOption<core::task::Waker>>,
}

impl WakerLinked {
    /// A list without parked tasks.
    pub fn new() -> (list: Self) {
        WakerLinked { linked: linked::empty() }
    }

    /// The list that the nodes are linked into.
    pub closed spec fn chain(&self) -> &ach_linked::LinkedList<ach_option::AchOption<core::task::Waker>> {
        &self.linked
    }

    /// The list that the nodes are linked into.
    pub fn links(&self) -> (list: &ach_linked::LinkedList<ach_option::AchOption<core::task::Waker>>)
        ensures
            list == self.chain(),
    {
        &self.linked
    }

    /// Takes the whole chain off the list and hands out its first node;
    /// `None` if no task is parked.
    pub fn detach(&self) -> (head: Option<&mut ach_linked::Node<ach_option::AchOption<core::task::Waker>>>) {
        linked::take_all(&self.linked)
    }
}

} // verus!
