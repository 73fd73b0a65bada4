//! The intrusive list of `ach_linked`, as far as it can be walked safely.

use vstd::prelude::*;

verus! {

/// `ach_linked::Node`: a value with a link to the next node.  The storage
/// is the caller's.
#[verifier::external_type_specification]
#[verifier::external_body]
#[verifier::reject_recursive_types(T)]
pub struct ExNode<T>(ach_linked::Node<T>);

/// `ach_linked::LinkedList`: the head of a chain of nodes.
#[verifier::external_type_specification]
#[verifier::external_body]
#[verifier::reject_recursive_types(T)]
pub struct ExLinkedList<T>(ach_linked::LinkedList<T>);

/// `Node::new`: a node that is linked to nothing.
#[verifier::external_body]
pub(crate) fn node<T>(value: T) -> (node: ach_linked::Node<T>) {
    ach_linked::Node::new(value)
}

/// `Node::next`: the node that this one is linked to, if any.
#[verifier::external_body]
pub(crate) fn next<'a, T>(node: &'a mut ach_linked::Node<T>) -> (next: Option<&'a mut ach_linked::Node<T>>) {
    node.next()
}

/// `Node::deref`: the value in the node.
#[verifier::external_body]
pub(crate) fn value<T>(node: &ach_linked::Node<T>) -> (value: &T) {
    &**node
}

/// `LinkedList::new`: a list without nodes.
#[verifier::external_body]
pub(crate) fn empty<T>() -> (list: ach_linked::LinkedList<T>) {
    ach_linked::LinkedList::new()
}

/// `LinkedList::take_all`: takes the whole chain off the list and hands
/// out its first node; `None` if the list had no node.
#[verifier::external_body]
pub(crate) fn take_all<T>(list: &ach_linked::LinkedList<T>) -> (head: Option<&mut ach_linked::Node<T>>) {
    list.take_all()
}

} // verus!
