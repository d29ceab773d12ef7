//! A lock that spins: one atomic flag, taken by an exchange and given back by
//! a store.

use crate::order::{give_order, giving, learns, take_order, taking, tells};
use std::ops::Deref;
use std::sync::atomic::{AtomicBool, Ordering};
use vstd::prelude::*;

verus! {

/// A lock that busy-waits, and the value that it protects. Fit for critical
/// sections of a few instructions.
pub struct SpinLock<T> {
    locked: AtomicBool,
    value: T,
}

/// Ownership of a [`SpinLock`], and with it the way to the protected value.
/// The lock is released when the guard goes.
///
/// A guard is made in one place only: after an exchange that found the flag
/// down. `taken` records what that exchange decided.
pub struct Guard<'a, T> {
    lock: &'a SpinLock<T>,
    taken: Ghost<bool>,
}

/// The acquiring exchange, which swaps `true` into the flag and found `locked`
/// there: the flag it leaves, and whether it took the lock.
pub open spec fn exchange(locked: bool) -> (bool, bool) {
    (true, !locked)
}

/// Whether the exchange that returned `previous` took the lock.
pub fn took_flag(previous: bool) -> (acquired: bool)
    ensures
        acquired == exchange(previous).1,
{
    !previous
}

/// `std::hint::spin_loop` tells the processor that the thread is busy-waiting;
/// it returns nothing and changes nothing.
pub assume_specification[ std::hint::spin_loop ]();

/// Stores `value` into `flag`. For the guard's destructor, which must not
/// unwind.
///
/// Calls `AtomicBool::store`, which panics for the two orderings that
/// acquire, and for no other.
#[verifier::external_body]
fn store_on_drop(flag: &AtomicBool, value: bool, order: Ordering)
    requires
        !(order is Acquire),
        !(order is AcqRel),
    opens_invariants none
    no_unwind
{
    flag.store(value, order);
}

impl<T> SpinLock<T> {
    /// The protected value.
    pub closed spec fn value(&self) -> T {
        self.value
    }

    /// A lock around `value` that nobody holds.
    pub fn new(value: T) -> (lock: Self)
        ensures
            lock.value() == value,
    {
        SpinLock { locked: AtomicBool::new(false), value }
    }

    /// Tries the exchange up to `attempts` times, with a spin hint after each
    /// failure. Returns the guard as soon as one exchange finds the flag down,
    /// and `None` when none did.
    pub fn lock(&self, attempts: u64) -> (guard: Option<Guard<'_, T>>)
        ensures
            attempts == 0 ==> guard is None,
            guard matches Some(g) ==> *g.owned() == *self,
    {
        let mut left: u64 = attempts;
        while left > 0
            invariant
                left <= attempts,
            decreases left,
        {
            let previous: bool = self.locked.swap(true, taking());
            if took_flag(previous) {
                return Some(Guard { lock: self, taken: Ghost(exchange(previous).1) });
            }
            std::hint::spin_loop();
            left = left - 1;
        }
        None
    }

    /// Gives the lock back. The same happens when a guard goes out of scope;
    /// this only says so aloud.
    pub fn unlock(guard: Guard<'_, T>) {
    }
}

impl<'a, T> Guard<'a, T> {
    /// The guard's thread took the flag.
    #[verifier::type_invariant]
    spec fn took(self) -> bool {
        self.taken@
    }

    /// The lock that this guard owns.
    pub closed spec fn owned(&self) -> &'a SpinLock<T> {
        self.lock
    }

    /// The lock that this guard owns.
    pub fn lock(&self) -> (lock: &'a SpinLock<T>)
        ensures
            lock == self.owned(),
    {
        self.lock
    }
}

impl<'a, T> Deref for Guard<'a, T> {
    type Target = T;

    /// The protected value, which is the caller's alone while the guard lives.
    fn deref(&self) -> (value: &T)
        ensures
            *value == self.owned().value(),
    {
        &self.lock.value
    }
}

impl<'a, T> Drop for Guard<'a, T> {
    fn drop(&mut self)
        opens_invariants none
        no_unwind
    {
        store_on_drop(&self.lock.locked, false, giving());
    }
}

/// The flag of a spin lock, the threads that own the lock, and who knows of
/// which writes to the protected value. The writes are counted; a thread that
/// `known` does not mention knows of none.
pub struct Flag {
    pub locked: bool,
    pub owners: Set<nat>,
    /// How often the protected value was written.
    pub writes: nat,
    /// How many of the writes the flag carries to its next acquiring reader.
    pub carried: nat,
    /// How many of the writes each thread is sure to see.
    pub known: Map<nat, nat>,
}

/// One step of one thread.
pub enum Turn {
    /// A thread that does not own the lock makes the exchange. If the
    /// exchange is ordered to learn, the thread learns what the flag carries.
    Exchange { thread: nat },
    /// An owner writes the protected value.
    Write { thread: nat },
    /// An owner stores `false`. If the store is ordered to tell, the flag
    /// carries what the owner knows; a store that is not carries nothing.
    Release { thread: nat },
}

impl Flag {
    /// How many of the writes `thread` is sure to see.
    pub open spec fn knows(self, thread: nat) -> nat {
        if self.known.contains_key(thread) {
            self.known[thread]
        } else {
            0
        }
    }

    /// `thread` owns the lock.
    pub open spec fn owned_by(self, thread: nat) -> bool {
        self.owners.contains(thread)
    }
}

/// The flag is down, nobody owns the lock, and the protected value is as it
/// was made.
pub open spec fn released(f: Flag) -> bool {
    &&& !f.locked
    &&& forall|t: nat| !#[trigger] f.owned_by(t)
    &&& f.writes == 0
    &&& f.carried == 0
    &&& forall|t: nat| #[trigger] f.knows(t) == 0
}

/// `f` becomes `g` by `turn`.
pub open spec fn turns(f: Flag, g: Flag, turn: Turn) -> bool {
    match turn {
        Turn::Exchange { thread } => {
            &&& !f.owned_by(thread)
            &&& g == Flag {
                locked: exchange(f.locked).0,
                owners: if exchange(f.locked).1 {
                    f.owners.insert(thread)
                } else {
                    f.owners
                },
                known: f.known.insert(
                    thread,
                    if learns(take_order()) && f.carried > f.knows(thread) {
                        f.carried
                    } else {
                        f.knows(thread)
                    },
                ),
                ..f
            }
        },
        Turn::Write { thread } => {
            &&& f.owned_by(thread)
            &&& g == Flag { writes: f.writes + 1, known: f.known.insert(thread, f.writes + 1), ..f }
        },
        Turn::Release { thread } => {
            &&& f.owned_by(thread)
            &&& g == Flag {
                locked: false,
                owners: f.owners.remove(thread),
                carried: if tells(give_order()) {
                    f.knows(thread)
                } else {
                    0
                },
                ..f
            }
        },
    }
}

/// What every reachable state of the flag satisfies.
pub open spec fn exclusive(f: Flag) -> bool {
    &&& f.locked <==> exists|t: nat| f.owned_by(t)
    &&& forall|a: nat, b: nat| #[trigger] f.owned_by(a) && #[trigger] f.owned_by(b) ==> a == b
    &&& f.carried <= f.writes
    &&& forall|t: nat| #[trigger] f.knows(t) <= f.writes
    &&& forall|t: nat| #[trigger] f.owned_by(t) ==> f.knows(t) == f.writes
    &&& !f.locked ==> f.carried == f.writes
}

/// `f` becomes `g` by some turn of some thread.
pub open spec fn turned(f: Flag, g: Flag) -> bool {
    exists|turn: Turn| turns(f, g, turn)
}

/// `trail[at + 1]` follows `trail[at]` by a turn.
pub open spec fn turns_at(trail: Seq<Flag>, at: int) -> bool {
    turned(trail[at], trail[at + 1])
}

/// `trail` begins with a released lock and goes on by turns of any threads in
/// any order.
pub open spec fn is_trail(trail: Seq<Flag>) -> bool {
    &&& trail.len() > 0
    &&& released(trail[0])
    &&& forall|i: int| 0 <= i < trail.len() - 1 ==> #[trigger] turns_at(trail, i)
}

proof fn turn_keeps_exclusive(f: Flag, g: Flag, turn: Turn)
    requires
        exclusive(f),
        turns(f, g, turn),
    ensures
        exclusive(g),
{
    let mover: nat = match turn {
        Turn::Exchange { thread } => thread,
        Turn::Write { thread } => thread,
        Turn::Release { thread } => thread,
    };
    assert forall|t: nat| t != mover implies #[trigger] g.knows(t) == f.knows(t) by {}
    assert forall|t: nat| t != mover implies #[trigger] g.owned_by(t) == f.owned_by(t) by {}
    match turn {
        Turn::Exchange { thread } => {
            if exchange(f.locked).1 {
                assert(g.owned_by(thread));
            } else {
                let owner = choose|t: nat| f.owned_by(t);
                assert(g.owned_by(owner));
            }
        },
        Turn::Write { thread } => {
            assert(g.owned_by(thread));
        },
        Turn::Release { thread } => {},
    }
}

/// Every state of a trail is exclusive.
pub proof fn trail_stays_exclusive(trail: Seq<Flag>, at: int)
    requires
        is_trail(trail),
        0 <= at < trail.len(),
    ensures
        exclusive(trail[at]),
    decreases at,
{
    if at > 0 {
        trail_stays_exclusive(trail, at - 1);
        assert(turns_at(trail, at - 1));
        let before = trail[at - 1];
        let after = trail[at];
        let turn = choose|turn: Turn| turns(before, after, turn);
        turn_keeps_exclusive(before, after, turn);
    }
}

/// Between two releases one thread at most comes to own the lock: two
/// threads that own it at the same moment are one and the same.
pub proof fn spin_lock_excludes(trail: Seq<Flag>, at: int, a: nat, b: nat)
    requires
        is_trail(trail),
        0 <= at < trail.len(),
        trail[at].owned_by(a),
        trail[at].owned_by(b),
    ensures
        a == b,
{
    trail_stays_exclusive(trail, at);
}

/// The flag is `true` for as long as a thread owns the lock and `false`
/// otherwise.
pub proof fn flag_is_up_iff_owned(trail: Seq<Flag>, at: int)
    requires
        is_trail(trail),
        0 <= at < trail.len(),
    ensures
        trail[at].locked <==> exists|t: nat| trail[at].owned_by(t),
{
    trail_stays_exclusive(trail, at);
}

/// What an owner wrote while it held the lock is visible to the next owner:
/// whoever owns the lock knows of every write to the protected value.
pub proof fn spin_owner_sees_every_write(trail: Seq<Flag>, at: int, owner: nat)
    requires
        is_trail(trail),
        0 <= at < trail.len(),
        trail[at].owned_by(owner),
    ensures
        trail[at].knows(owner) == trail[at].writes,
{
    trail_stays_exclusive(trail, at);
}

} // verus!
