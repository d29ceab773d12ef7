//! The memory orderings of the operations on a lock word, and what an
//! ordering hands on from the thread that gives a lock back to the thread
//! that takes it next.

use std::sync::atomic::Ordering;
use vstd::prelude::*;

verus! {

/// Whether a read of the word with this ordering learns what the word
/// carries: acquire, or stronger.
pub open spec fn learns(order: Ordering) -> bool {
    order is Acquire || order is AcqRel || order is SeqCst
}

/// Whether a write to the word with this ordering attaches to the word what
/// the writer knows: release, or stronger.
pub open spec fn tells(order: Ordering) -> bool {
    order is Release || order is AcqRel || order is SeqCst
}

/// The ordering of an operation that may take the lock.
pub open spec fn take_order() -> Ordering {
    Ordering::Acquire
}

/// The ordering of the operation that gives the lock back.
pub open spec fn give_order() -> Ordering {
    Ordering::Release
}

/// The ordering of an operation that only looks: a spinning read, and a
/// compare-and-swap where it fails.
pub open spec fn look_order() -> Ordering {
    Ordering::Relaxed
}

/// The ordering of an operation that may take the lock.
pub fn taking() -> (order: Ordering)
    ensures
        order == take_order(),
{
    Ordering::Acquire
}

/// The ordering of the operation that gives the lock back.
pub fn giving() -> (order: Ordering)
    ensures
        order == give_order(),
    opens_invariants none
    no_unwind
{
    Ordering::Release
}

/// The ordering of an operation that only looks.
pub fn looking() -> (order: Ordering)
    ensures
        order == look_order(),
{
    Ordering::Relaxed
}

/// Taking learns and giving tells: the operation that takes the lock is
/// ordered acquire or stronger, and the one that gives it back release or
/// stronger.
pub proof fn taking_learns_what_giving_tells()
    ensures
        learns(take_order()),
        tells(give_order()),
{
}

} // verus!
