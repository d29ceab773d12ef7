//! The lock word: its three values, and what a thread decides from a value it
//! has read or swapped out of it.

use vstd::prelude::*;

verus! {

/// No thread owns the lock.
pub const UNLOCKED: u32 = 0;

/// One thread owns the lock and none has announced that it waits.
pub const LOCKED_NO_WAITERS: u32 = 1;

/// One thread owns the lock and another waits for it, or did a moment ago.
pub const LOCKED_WAITERS: u32 = 2;

/// How often a contender re-reads the word before it turns to the kernel.
pub const SPIN_LIMIT: u32 = 100;

/// What a contender does next, having swapped `LOCKED_WAITERS` into the word.
#[derive(Clone, Copy, Debug, PartialEq, Eq, Structural)]
pub enum Contend {
    /// The word was free: the contender owns the lock now.
    Acquired,
    /// The lock is taken and the contender may still block: it sleeps on the word.
    Park,
    /// The lock is taken and the contender may block no more: it leaves.
    GiveUp,
}

/// The lock word holds one of its three values.
pub open spec fn is_lock_state(word: u32) -> bool {
    word == UNLOCKED || word == LOCKED_NO_WAITERS || word == LOCKED_WAITERS
}

/// The fast path, a compare-and-swap from `UNLOCKED` to `LOCKED_NO_WAITERS`:
/// the word it leaves, and whether it took the lock.
pub open spec fn try_acquire(word: u32) -> (u32, bool) {
    if word == UNLOCKED {
        (LOCKED_NO_WAITERS, true)
    } else {
        (word, false)
    }
}

/// The contended path, a swap of `LOCKED_WAITERS` into the word: the word it
/// leaves, and whether it took the lock.
pub open spec fn announce(word: u32) -> (u32, bool) {
    (LOCKED_WAITERS, word == UNLOCKED)
}

/// The release, a swap of `UNLOCKED` into the word: the word it leaves, and
/// whether a sleeper is owed a wake.
pub open spec fn release(word: u32) -> (u32, bool) {
    (UNLOCKED, word == LOCKED_WAITERS)
}

/// A spinning contender goes round again while the owner is alone on the lock
/// and the spin budget lasts.
pub open spec fn spins_on(observed: u32, spins: u32) -> bool {
    observed == LOCKED_NO_WAITERS && spins < SPIN_LIMIT
}

/// What follows a swap of `LOCKED_WAITERS` that returned `previous`, for a
/// contender that may still block `parks_left` times.
pub open spec fn contend(previous: u32, parks_left: u32) -> Contend {
    if announce(previous).1 {
        Contend::Acquired
    } else if parks_left > 0 {
        Contend::Park
    } else {
        Contend::GiveUp
    }
}

/// Whether a contender that has spun `spins` times and now reads `observed`
/// spins once more.
pub fn keep_spinning(observed: u32, spins: u32) -> (again: bool)
    ensures
        again == spins_on(observed, spins),
{
    observed == LOCKED_NO_WAITERS && spins < SPIN_LIMIT
}

/// The contender's move after its swap returned `previous`.
pub fn after_announce(previous: u32, parks_left: u32) -> (step: Contend)
    ensures
        step == contend(previous, parks_left),
{
    if previous == UNLOCKED {
        Contend::Acquired
    } else if parks_left > 0 {
        Contend::Park
    } else {
        Contend::GiveUp
    }
}

/// Whether the releasing swap, which returned `previous`, must be followed by
/// a wake: only when a waiter was announced.
pub fn wake_owed(previous: u32) -> (wake: bool)
    ensures
        wake == release(previous).1,
        previous == LOCKED_NO_WAITERS ==> !wake,
    opens_invariants none
    no_unwind
{
    previous == LOCKED_WAITERS
}

} // verus!
