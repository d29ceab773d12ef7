//! A lock that sleeps: one atomic word that is free, owned, or owned with
//! waiters, and the kernel's block/wake service for those who must wait.

use crate::futex::{wait, wake_one};
use crate::order::{giving, looking, taking};
use crate::protocol::Phase;
use crate::word::{
    after_announce, keep_spinning, wake_owed, Contend, LOCKED_NO_WAITERS, LOCKED_WAITERS,
    SPIN_LIMIT, UNLOCKED,
};
use std::ops::Deref;
use std::sync::atomic::{AtomicU32, Ordering};
use vstd::prelude::*;

verus! {

/// A mutual-exclusion lock and the value that it protects. An uncontended
/// acquisition or release is one atomic operation and never enters the kernel.
pub struct Mutex<T> {
    state: AtomicU32,
    value: T,
}

/// Ownership of a [`Mutex`], and with it the way to the protected value. The
/// lock is released, and a waiter woken if one was announced, when the guard
/// goes.
///
/// A guard is made in one place only: where the values that the caller's
/// atomic operations returned put the caller, by the rules of the protocol,
/// into the phase of the owner. `phase` records that phase.
pub struct MutexGuard<'a, T> {
    mutex: &'a Mutex<T>,
    phase: Ghost<Phase>,
}

/// Swaps `value` into `word` and returns what was there. For the guard's
/// destructor, which must not unwind.
///
/// Calls `AtomicU32::swap`, which accepts every ordering and never panics.
/// Nothing is said of the value that comes back.
#[verifier::external_body]
fn swap_on_drop(word: &AtomicU32, value: u32, order: Ordering) -> (previous: u32)
    opens_invariants none
    no_unwind
{
    word.swap(value, order)
}

/// The contended path, entered in the phase `entry` of a thread whose fast
/// path has just failed. Spins while the owner is alone on the lock, tries the
/// fast path once more, and then announces itself as a waiter: it swaps
/// `LOCKED_WAITERS` into the word and sleeps on it, again and again, until a
/// swap finds the word free. It gives up, right after a swap that failed, once
/// it has slept `parks` times.
///
/// Returns whether it took the lock, and the phase in which it leaves the
/// caller: each operation on the word has moved the phase on as the protocol
/// says for the value that the operation returned.
fn lock_contended(state: &AtomicU32, parks: u32, Ghost(entry): Ghost<Phase>) -> (out: (
    bool,
    Ghost<Phase>,
))
    requires
        entry == (Phase::Spinning { spins: 0 }),
    ensures
        out.0 <==> out.1@ is Holding,
        !out.0 ==> out.1@ is Idle,
{
    let ghost mut phase = entry;
    let mut spins: u32 = 0;
    loop
        invariant_except_break
            phase == (Phase::Spinning { spins }),
        invariant
            spins <= SPIN_LIMIT,
        ensures
            phase is Retrying,
        decreases SPIN_LIMIT - spins,
    {
        let observed: u32 = state.load(looking());
        proof {
            phase = phase.after(observed);
        }
        if !keep_spinning(observed, spins) {
            break ;
        }
        spins = spins + 1;
        std::hint::spin_loop();
    }
    let retried = state.compare_exchange(UNLOCKED, LOCKED_NO_WAITERS, taking(), looking());
    proof {
        phase = phase.after_exchange(retried is Ok);
    }
    if retried.is_ok() {
        return (true, Ghost(phase));
    }
    let mut left: u32 = parks;
    loop
        invariant
            phase is Contending,
            left <= parks,
        decreases left,
    {
        let previous: u32 = state.swap(LOCKED_WAITERS, taking());
        proof {
            phase = phase.after(previous);
        }
        match after_announce(previous, left) {
            Contend::Acquired => {
                return (true, Ghost(phase));
            },
            Contend::GiveUp => {
                proof {
                    // A thread that is about to sleep may leave instead.
                    assert(phase is Parking);
                    phase = Phase::Idle;
                }
                return (false, Ghost(phase));
            },
            Contend::Park => {
                wait(state, LOCKED_WAITERS);
                proof {
                    // The kernel compared the word with `LOCKED_WAITERS`. It
                    // found another value and returned at once, or it put
                    // the thread to sleep and the thread is awake again.
                    let compared: u32 = arbitrary();
                    let parked = phase.after(compared);
                    phase = if parked is Asleep {
                        parked.after(compared)
                    } else {
                        parked
                    };
                }
                left = left - 1;
            },
        }
    }
}

impl<T> Mutex<T> {
    /// The protected value.
    pub closed spec fn value(&self) -> T {
        self.value
    }

    /// A lock around `value` that nobody holds.
    pub fn new(value: T) -> (mutex: Self)
        ensures
            mutex.value() == value,
    {
        Mutex { state: AtomicU32::new(UNLOCKED), value }
    }

    /// Takes the lock, sleeping at most `parks` times for it.
    ///
    /// The fast path is one compare-and-swap from `UNLOCKED` to
    /// `LOCKED_NO_WAITERS`. Where that fails the caller spins briefly and then
    /// waits in the kernel. `None` means that the lock was still taken after
    /// the last permitted sleep; with `parks == 0` the call never blocks.
    ///
    /// Whether the lock is free when the caller comes is for the other
    /// threads to decide, so nothing is promised about which of the two comes
    /// back. What is promised is that a guard comes back only to an owner:
    /// the values that the caller's operations on the word returned lead,
    /// step by step of [`Phase::after`], from `Idle` to `Holding`.
    pub fn lock(&self, parks: u32) -> (guard: Option<MutexGuard<'_, T>>)
        ensures
            guard matches Some(g) ==> *g.owned() == *self && g.phase() is Holding,
    {
        let first = self.state.compare_exchange(
            UNLOCKED,
            LOCKED_NO_WAITERS,
            taking(),
            looking(),
        );
        let ghost phase = Phase::Idle.after_exchange(first is Ok);
        if first.is_ok() {
            return Some(MutexGuard { mutex: self, phase: Ghost(phase) });
        }
        let (acquired, phase) = lock_contended(&self.state, parks, Ghost(phase));
        if acquired {
            Some(MutexGuard { mutex: self, phase })
        } else {
            None
        }
    }

    /// The lock word as it is read now. Another thread may change it at any
    /// moment, so the value is a snapshot and no more.
    pub fn state(&self) -> (word: u32) {
        self.state.load(looking())
    }

    /// The release, by the owner: swaps the word to `UNLOCKED`, and wakes one
    /// sleeper only if the word said that one may be waiting.
    fn unlock(&self, Ghost(owner): Ghost<Phase>)
        requires
            owner is Holding,
        opens_invariants none
        no_unwind
    {
        let previous: u32 = swap_on_drop(&self.state, UNLOCKED, giving());
        let ghost phase = owner.after(previous);
        if wake_owed(previous) {
            assert(phase is Waking);
            wake_one(&self.state);
        } else {
            assert(phase is Idle);
        }
    }
}

impl<'a, T> MutexGuard<'a, T> {
    /// The guard's thread is the owner.
    #[verifier::type_invariant]
    spec fn holding(self) -> bool {
        self.phase@ is Holding
    }

    /// The lock that this guard owns.
    pub closed spec fn owned(&self) -> &'a Mutex<T> {
        self.mutex
    }

    /// The phase of the protocol that the acquisition left the guard's thread
    /// in.
    pub closed spec fn phase(&self) -> Phase {
        self.phase@
    }

    /// The lock that this guard owns.
    pub fn mutex(&self) -> (mutex: &'a Mutex<T>)
        ensures
            mutex == self.owned(),
    {
        self.mutex
    }
}

impl<'a, T> Deref for MutexGuard<'a, T> {
    type Target = T;

    /// The protected value, which is the caller's alone while the guard lives.
    fn deref(&self) -> (value: &T)
        ensures
            *value == self.owned().value(),
    {
        &self.mutex.value
    }
}

impl<'a, T> Drop for MutexGuard<'a, T> {
    fn drop(&mut self)
        opens_invariants none
        no_unwind
    {
        proof {
            use_type_invariant(&*self);
        }
        self.mutex.unlock(self.phase);
    }
}

} // verus!
