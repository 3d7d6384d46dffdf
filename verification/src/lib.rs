//! A futex-like synchronization primitive on which threads and tasks wait for a
//! notification from another thread.
//!
//! - `protocol`: what is decided from the values read from the counter and from
//!   a wait future's state, with exact contracts.
//! - `futex`: the futex (an atomic counter and a concurrent queue of waiters)
//!   and its wait future, generic over what a waiter is.
//! - `laws`: properties of the protocol over a model of one futex.

pub mod futex;
pub mod laws;
pub mod protocol;
