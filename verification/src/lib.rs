//! Asynchronous, lock-free, heap-free coordination primitives.
//!
//! Every primitive pairs a non-blocking storage container with a `Notify`:
//! an operation that cannot make progress parks its task's waker, and the
//! operation that makes progress possible wakes it.  All state sits behind
//! shared references and is changed by atomic steps only, so a contract on a
//! `&self` method speaks of what the call hands back and of the caller's own
//! state.  What holds of the shared state is stated over a model of the
//! atomic steps, in `notify::race`, `notify::edge` and `protocol`, and
//! proved there for every order in which the steps can be taken.  The model
//! is tied to the code by the functions that take a step on the answer of
//! an outside call: `notify::claim` and `notify::race::after_try` for a
//! listener's tries, `notify::versioned::advance` for a look at the
//! version, `notify::broadcast_step` for a round of a broadcast, and the
//! `settle` of each wait for a try of its operation.
//!
//! A wait is a state machine with a `poll` that takes the task's waker.  A
//! poll ends pending only when the waker is parked; as long as it finds
//! events but no progress it tries again, and should that go on for
//! `usize::MAX` rounds it wakes its own task and ends pending.

pub mod error;
pub mod task;

pub mod store;
pub mod waker;
pub mod notify;
pub mod protocol;
pub mod cell;
pub mod ring;
pub mod spsc;
pub mod mpmc;
pub mod pubsub;
pub mod watch;
