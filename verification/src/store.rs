//! The storage containers that the primitives are built on.
//!
//! Each container is lock-free and is changed through shared references by
//! any number of tasks at once.  What a call returns therefore depends on
//! what the other tasks did in the meantime: the contracts here say only
//! what holds of every outcome, above all that a refused value comes back
//! unchanged.

pub mod array;
pub mod atomic;
pub mod cell;
pub mod linked;
pub mod option;
pub mod pubsub;
pub mod ring;
pub mod spsc;
