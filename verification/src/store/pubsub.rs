//! The broadcast container of `ach_pubsub`, borrowed and shared.

use vstd::prelude::*;
use crate::error::Error;

verus! {

/// `ach_pubsub::heapless::Publisher`: up to `NS` subscriber queues of at
/// most `NT` values each.
#[verifier::external_body]
#[verifier::reject_recursive_types(T)]
pub struct Hub<T, const NT: usize, const NS: usize> {
    pub(crate) inner: ach_pubsub::heapless::Publisher<T, NT, NS>,
}

/// `ach_pubsub::heapless::Subscriber`: one subscriber's queue.  Dropping it
/// ends the subscription.
#[verifier::external_body]
#[verifier::reject_recursive_types(T)]
pub struct Feed<'a, T, const NT: usize> {
    pub(crate) inner: ach_pubsub::heapless::Subscriber<'a, T, NT>,
}

/// `ach_pubsub::heap::Publisher`: as `Hub`, with the queues in shared
/// ownership.
#[verifier::external_body]
#[verifier::reject_recursive_types(T)]
pub struct SharedHub<T, const NT: usize, const NS: usize> {
    pub(crate) inner: ach_pubsub::heap::Publisher<T, NT, NS>,
}

/// `ach_pubsub::heap::Subscriber`: one subscriber's queue, which keeps the
/// queues alive.  Dropping it ends the subscription.
#[verifier::external_body]
#[verifier::reject_recursive_types(T)]
pub struct SharedFeed<T, const NT: usize, const NS: usize> {
    pub(crate) inner: ach_pubsub::heap::Subscriber<T, NT, NS>,
}

/// `heapless::Publisher::new`: a publisher without subscribers.
#[verifier::external_body]
pub(crate) fn hub<T, const NT: usize, const NS: usize>(strict: bool) -> (hub: Hub<T, NT, NS>) {
    Hub { inner: ach_pubsub::heapless::Publisher::new(strict) }
}

/// `heapless::Publisher::subscribe`: a new subscriber's queue, or `None` if
/// all `NS` are taken.
#[verifier::external_body]
pub(crate) fn subscribe<T, const NT: usize, const NS: usize>(hub: &Hub<T, NT, NS>) -> (feed: Option<
    Feed<'_, T, NT>,
>) {
    match hub.inner.subscribe() {
        Some(inner) => Some(Feed { inner }),
        None => None,
    }
}

/// `heapless::Publisher::send`: offers a clone of `val` to every
/// subscriber's queue and returns how many took it: one at most for each of
/// the `NS` queues.
#[verifier::external_body]
pub(crate) fn send<T: Clone, const NT: usize, const NS: usize>(hub: &Hub<T, NT, NS>, val: T) -> (taken: usize)
    ensures
        taken <= NS,
{
    hub.inner.send(val)
}

/// `heapless::Subscriber::try_recv`: removes the first value of the
/// subscriber's queue.  A refusal is never transient: the queue is empty.
#[verifier::external_body]
pub(crate) fn try_recv<T, const NT: usize>(feed: &Feed<'_, T, NT>) -> (got: Result<T, Error<()>>)
    ensures
        got matches Err(e) ==> !e.retry,
{
    match feed.inner.try_recv() {
        Ok(value) => Ok(value),
        Err(e) => Err(Error { state: e.state, input: e.input, retry: e.retry }),
    }
}

/// `heap::Publisher::new`: a publisher without subscribers.
#[verifier::external_body]
pub(crate) fn shared_hub<T, const NT: usize, const NS: usize>(strict: bool) -> (hub: SharedHub<T, NT, NS>) {
    SharedHub { inner: ach_pubsub::heap::Publisher::new(strict) }
}

/// `heap::Publisher::subscribe`: a new subscriber's queue, or `None` if all
/// `NS` are taken.
#[verifier::external_body]
pub(crate) fn shared_subscribe<T, const NT: usize, const NS: usize>(hub: &SharedHub<T, NT, NS>) -> (feed:
    Option<SharedFeed<T, NT, NS>>) {
    match hub.inner.subscribe() {
        Some(inner) => Some(SharedFeed { inner }),
        None => None,
    }
}

/// `heap::Publisher::send`: offers a clone of `val` to every subscriber's
/// queue and returns how many took it: one at most for each of the `NS`
/// queues.
#[verifier::external_body]
pub(crate) fn shared_send<T: Clone, const NT: usize, const NS: usize>(
    hub: &SharedHub<T, NT, NS>,
    val: T,
) -> (taken: usize)
    ensures
        taken <= NS,
{
    hub.inner.send(val)
}

/// `heap::Subscriber::try_recv`: removes the first value of the
/// subscriber's queue.  A refusal is never transient: the queue is empty.
#[verifier::external_body]
pub(crate) fn shared_try_recv<T, const NT: usize, const NS: usize>(feed: &SharedFeed<T, NT, NS>) -> (got:
    Result<T, Error<()>>)
    ensures
        got matches Err(e) ==> !e.retry,
{
    match feed.inner.try_recv() {
        Ok(value) => Ok(value),
        Err(e) => Err(Error { state: e.state, input: e.input, retry: e.retry }),
    }
}

} // verus!
