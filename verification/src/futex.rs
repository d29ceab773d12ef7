//! The block/wake service of the operating system, keyed by the address of a
//! 32-bit atomic word.
//!
//! The service is reached through the `atomic-wait` crate, which has it for
//! Linux, Android, FreeBSD, Windows and Apple's systems. For any other
//! platform that crate, and so this one, does not build: a missing service
//! shows before a lock is ever made, and never in the middle of a wait.

use std::sync::atomic::AtomicU32;
use vstd::prelude::*;

verus! {

/// Sleeps while `word` holds `expected`.
///
/// Calls `atomic_wait::wait`. If the word does not hold `expected` the call
/// returns at once; otherwise the thread sleeps until some thread wakes it.
/// The comparison and the falling asleep are one step with respect to a
/// concurrent `wake_one`. The call may also return for no reason at all, so
/// nothing is promised about the word afterwards: the caller reads it again.
/// With nobody left to wake it, a sleeper does not return.
#[verifier::external_body]
pub fn wait(word: &AtomicU32, expected: u32) {
    atomic_wait::wait(word, expected);
}

/// Wakes one thread that sleeps on `word`, if there is any.
///
/// Calls `atomic_wait::wake_one`, which never fails and never unwinds; with
/// no sleeper it does nothing.
#[verifier::external_body]
pub fn wake_one(word: &AtomicU32)
    opens_invariants none
    no_unwind
{
    atomic_wait::wake_one(word);
}

} // verus!
