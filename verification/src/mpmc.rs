//! A channel for many producers and many consumers, as sending and
//! receiving handles on one queue.

pub mod heap;
pub mod heapless;
