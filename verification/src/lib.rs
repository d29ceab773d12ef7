//! Mutual exclusion built from atomic words and the kernel's block/wake service.
//!
//! * [`spin`]: a lock that busy-waits on one atomic flag.
//! * [`mutex`]: a lock whose word also records whether anyone waits, so that
//!   an uncontended release never enters the kernel.
//! * [`futex`]: the block/wake service both are keyed to.
//! * [`word`]: the values of the lock word and every decision taken on a value
//!   read from it.
//! * [`order`]: the memory ordering of each kind of operation on a lock word.
//! * [`channel`]: a channel for one message of one machine word.
//! * [`protocol`]: the lock as a transition system over any number of threads,
//!   with the proofs of what holds in each of its reachable states.
//!
//! A lock keeps the value that it protects beside its word and hands out a
//! shared reference to it through the guard, and through nothing else. What
//! the owner may change is therefore what the value lets a shared reference
//! change: an atomic, or a cell that the caller has declared safe to share.

pub mod channel;
pub mod futex;
pub mod mutex;
pub mod order;
pub mod protocol;
pub mod spin;
pub mod word;

pub use channel::Channel;
pub use futex::{wait, wake_one};
pub use mutex::{Mutex, MutexGuard};
pub use spin::{Guard, SpinLock};
