//! The sleeping lock as a transition system.
//!
//! Any number of threads run the locking protocol against one lock word. Each
//! step is one atomic operation on the word, or one call of the block/wake
//! service, by one thread; the steps of different threads interleave in any
//! order. The proofs here show what holds in every state that such a system
//! can reach: the word is one of its three values, at most one thread owns the
//! lock, the word is free exactly when nobody owns it, a sleeping thread is
//! never left without someone who will wake it, and the owner sees every write
//! that was made to the protected value under the lock.
//!
//! Of the block/wake service the system takes what the service promises: to
//! compare the word and to fall asleep is one step, a wake wakes one sleeper
//! if there is one, and a sleeper may come back unprompted.
//!
//! Memory ordering is modelled by what a thread knows. The writes to the
//! protected value are counted. An operation that writes the word with an
//! ordering that tells attaches to the word how many of them the writer knows
//! of; the exchanges that follow pass this on; and an operation that reads the
//! word with an ordering that learns comes to know it. Which operation has
//! which ordering is taken from [`crate::order`], where the locks take theirs
//! from as well.

use crate::order::{give_order, learns, look_order, take_order, tells};
use crate::word::{
    announce, is_lock_state, release, spins_on, try_acquire, LOCKED_NO_WAITERS, LOCKED_WAITERS,
    SPIN_LIMIT, UNLOCKED,
};
use std::sync::atomic::Ordering;
use vstd::prelude::*;

verus! {

/// Where a thread stands in the protocol.
pub enum Phase {
    /// Outside: it neither owns the lock nor wants it.
    Idle,
    /// Its fast path failed; it has re-read the word `spins` times.
    Spinning { spins: u32 },
    /// Done spinning; about to try the fast path once more.
    Retrying,
    /// About to swap `LOCKED_WAITERS` into the word.
    Contending,
    /// Its swap found the lock taken; about to sleep on the word, or to leave.
    Parking,
    /// Asleep in the kernel.
    Asleep,
    /// It owns the lock.
    Holding,
    /// It has released the lock and found a waiter announced; about to wake one.
    Waking,
}

impl Phase {
    /// The phase that follows a compare-and-swap on the fast path, which wins
    /// exactly when it finds the word `UNLOCKED`.
    pub open spec fn after_exchange(self, won: bool) -> Phase {
        match self {
            Phase::Idle => if won {
                Phase::Holding
            } else {
                Phase::Spinning { spins: 0 }
            },
            Phase::Retrying => if won {
                Phase::Holding
            } else {
                Phase::Contending
            },
            _ => self,
        }
    }

    /// The phase that follows this one when the thread takes its next step
    /// and the operation that the step consists of finds `word` in the lock
    /// word. A sleeper's next step is to return from the kernel, and a
    /// waker's is to have called it, whatever the word.
    pub open spec fn after(self, word: u32) -> Phase {
        match self {
            Phase::Idle | Phase::Retrying => self.after_exchange(try_acquire(word).1),
            Phase::Spinning { spins } => if spins_on(word, spins) {
                Phase::Spinning { spins: (spins + 1) as u32 }
            } else {
                Phase::Retrying
            },
            Phase::Contending => if announce(word).1 {
                Phase::Holding
            } else {
                Phase::Parking
            },
            Phase::Parking => if word == LOCKED_WAITERS {
                Phase::Asleep
            } else {
                Phase::Contending
            },
            Phase::Asleep => Phase::Contending,
            Phase::Holding => if release(word).1 {
                Phase::Waking
            } else {
                Phase::Idle
            },
            Phase::Waking => Phase::Idle,
        }
    }
}

/// The lock word, the phase of every thread, and who knows of which writes to
/// the protected value. A thread that `threads` does not mention is idle; one
/// that `known` does not mention knows of no write.
pub struct System {
    pub word: u32,
    pub threads: Map<nat, Phase>,
    /// How often the protected value was written.
    pub writes: nat,
    /// How many of the writes the word carries to its next acquiring reader.
    pub carried: nat,
    /// How many of the writes each thread is sure to see.
    pub known: Map<nat, nat>,
}

/// One step of one thread.
pub enum Step {
    /// An idle thread tries the fast path.
    TryLock { thread: nat },
    /// A spinning thread reads the word. The read is relaxed, so `observed`
    /// may be any value the word held before.
    Spin { thread: nat, observed: u32 },
    /// A thread that has stopped spinning tries the fast path again.
    Retry { thread: nat },
    /// A contender swaps `LOCKED_WAITERS` into the word.
    Announce { thread: nat },
    /// A thread asks the kernel to sleep while the word is `LOCKED_WAITERS`.
    Park { thread: nat },
    /// A thread that may block no more leaves without the lock.
    GiveUp { thread: nat },
    /// A sleeper returns from the kernel though nobody woke it.
    Rouse { thread: nat },
    /// The owner writes the protected value.
    Write { thread: nat },
    /// The owner swaps `UNLOCKED` into the word.
    Unlock { thread: nat },
    /// A thread that owes a wake calls the kernel, which wakes `sleeper`; it
    /// names nobody only when nobody sleeps.
    Wake { thread: nat, sleeper: Option<nat> },
}

impl System {
    /// The phase of `thread`.
    pub open spec fn phase(self, thread: nat) -> Phase {
        if self.threads.contains_key(thread) {
            self.threads[thread]
        } else {
            Phase::Idle
        }
    }

    /// This system after `thread` has moved to `phase` and left `word` behind.
    pub open spec fn moved(self, thread: nat, phase: Phase, word: u32) -> System {
        System { word, threads: self.threads.insert(thread, phase), ..self }
    }

    /// How many of the writes `thread` is sure to see.
    pub open spec fn knows(self, thread: nat) -> nat {
        if self.known.contains_key(thread) {
            self.known[thread]
        } else {
            0
        }
    }

    /// This system after `thread` has read the word by an operation ordered
    /// `order`: if the ordering learns, the thread knows what the word
    /// carries.
    pub open spec fn learnt(self, thread: nat, order: Ordering) -> System {
        if learns(order) && self.carried > self.knows(thread) {
            System { known: self.known.insert(thread, self.carried), ..self }
        } else {
            self
        }
    }

    /// This system after `thread` has swapped a value into the word by an
    /// operation ordered `order`: if the ordering tells, the word carries
    /// what `thread` knows as well. A swap that does not tell passes on what
    /// the word carried before.
    pub open spec fn told(self, thread: nat, order: Ordering) -> System {
        if tells(order) && self.knows(thread) > self.carried {
            System { carried: self.knows(thread), ..self }
        } else {
            self
        }
    }

    /// This system after `thread` has written the protected value.
    pub open spec fn written(self, thread: nat) -> System {
        System { writes: self.writes + 1, known: self.known.insert(thread, self.writes + 1), ..self }
    }

    /// `thread` owns the lock.
    pub open spec fn holds(self, thread: nat) -> bool {
        self.phase(thread) is Holding
    }

    /// `thread` is asleep in the kernel.
    pub open spec fn sleeps(self, thread: nat) -> bool {
        self.phase(thread) is Asleep
    }

    /// `thread` is awake and its next step leads to a wake: it is about to
    /// call the kernel for one, or about to swap `LOCKED_WAITERS` into the
    /// word, after which the owner of that moment owes one.
    pub open spec fn rouses(self, thread: nat) -> bool {
        self.phase(thread) is Waking || self.phase(thread) is Contending
    }

    /// A wake is on its way: the lock is owned and its word tells the owner to
    /// wake a sleeper on release, or some thread `rouses`.
    pub open spec fn wake_pending(self) -> bool {
        self.word == LOCKED_WAITERS || exists|t: nat| self.rouses(t)
    }
}

/// The lock is free, every thread is idle, and the protected value is as it
/// was made.
pub open spec fn init(s: System) -> bool {
    &&& s.word == UNLOCKED
    &&& forall|t: nat| #[trigger] s.phase(t) is Idle
    &&& s.writes == 0
    &&& s.carried == 0
    &&& forall|t: nat| #[trigger] s.knows(t) == 0
}

/// `s` becomes `next` by `step`.
pub open spec fn next_by(s: System, next: System, step: Step) -> bool {
    match step {
        Step::TryLock { thread } => {
            &&& s.phase(thread) is Idle
            &&& next == s.moved(
                thread,
                s.phase(thread).after(s.word),
                try_acquire(s.word).0,
            ).learnt(
                thread,
                if try_acquire(s.word).1 {
                    take_order()
                } else {
                    look_order()
                },
            )
        },
        Step::Spin { thread, observed } => {
            &&& s.phase(thread) is Spinning
            &&& next == s.moved(thread, s.phase(thread).after(observed), s.word).learnt(
                thread,
                look_order(),
            )
        },
        Step::Retry { thread } => {
            &&& s.phase(thread) is Retrying
            &&& next == s.moved(
                thread,
                s.phase(thread).after(s.word),
                try_acquire(s.word).0,
            ).learnt(
                thread,
                if try_acquire(s.word).1 {
                    take_order()
                } else {
                    look_order()
                },
            )
        },
        Step::Announce { thread } => {
            &&& s.phase(thread) is Contending
            &&& next == s.moved(thread, s.phase(thread).after(s.word), announce(s.word).0).learnt(
                thread,
                take_order(),
            )
        },
        Step::Park { thread } => {
            &&& s.phase(thread) is Parking
            &&& next == s.moved(thread, s.phase(thread).after(s.word), s.word)
        },
        Step::GiveUp { thread } => {
            &&& s.phase(thread) is Parking
            &&& next == s.moved(thread, Phase::Idle, s.word)
        },
        Step::Rouse { thread } => {
            &&& s.phase(thread) is Asleep
            &&& next == s.moved(thread, s.phase(thread).after(s.word), s.word)
        },
        Step::Write { thread } => {
            &&& s.phase(thread) is Holding
            &&& next == s.written(thread)
        },
        Step::Unlock { thread } => {
            &&& s.phase(thread) is Holding
            &&& next == s.moved(thread, s.phase(thread).after(s.word), release(s.word).0).told(
                thread,
                give_order(),
            )
        },
        Step::Wake { thread, sleeper } => {
            &&& s.phase(thread) is Waking
            &&& match sleeper {
                Some(woken) => {
                    &&& s.sleeps(woken)
                    &&& next == s.moved(woken, s.phase(woken).after(s.word), s.word).moved(
                        thread,
                        s.phase(thread).after(s.word),
                        s.word,
                    )
                },
                None => {
                    &&& forall|t: nat| !#[trigger] s.sleeps(t)
                    &&& next == s.moved(thread, s.phase(thread).after(s.word), s.word)
                },
            }
        },
    }
}

/// `s` becomes `next` by some step of some thread.
pub open spec fn next(s: System, next: System) -> bool {
    exists|step: Step| next_by(s, next, step)
}

/// What every reachable state satisfies.
pub open spec fn inv(s: System) -> bool {
    &&& is_lock_state(s.word)
    &&& forall|a: nat, b: nat| #[trigger] s.holds(a) && #[trigger] s.holds(b) ==> a == b
    &&& s.word != UNLOCKED <==> exists|t: nat| s.holds(t)
    &&& (exists|t: nat| s.sleeps(t)) ==> s.wake_pending()
    &&& s.carried <= s.writes
    &&& forall|t: nat| #[trigger] s.knows(t) <= s.writes
    &&& forall|t: nat| #[trigger] s.holds(t) ==> s.knows(t) == s.writes
    &&& s.word == UNLOCKED ==> s.carried == s.writes
    &&& forall|t: nat| #[trigger] s.phase(t) matches Phase::Spinning { spins } ==> spins <= SPIN_LIMIT
}

/// The states of `run` from position `at` on follow one another by steps.
pub open spec fn steps_from(run: Seq<System>, at: int) -> bool {
    next(run[at], run[at + 1])
}

/// `run` is a history of the system: it begins in an initial state and each
/// state follows from the one before by one step.
pub open spec fn is_run(run: Seq<System>) -> bool {
    &&& run.len() > 0
    &&& init(run[0])
    &&& forall|i: int| 0 <= i < run.len() - 1 ==> #[trigger] steps_from(run, i)
}

proof fn init_establishes_inv(s: System)
    requires
        init(s),
    ensures
        inv(s),
{
    assert forall|t: nat| !s.holds(t) && !s.sleeps(t) by {
        assert(s.phase(t) is Idle);
    }
}

proof fn step_preserves_inv(s: System, n: System, step: Step)
    requires
        inv(s),
        next_by(s, n, step),
    ensures
        inv(n),
{
    let mover: nat = match step {
        Step::TryLock { thread } => thread,
        Step::Spin { thread, .. } => thread,
        Step::Retry { thread } => thread,
        Step::Announce { thread } => thread,
        Step::Park { thread } => thread,
        Step::GiveUp { thread } => thread,
        Step::Rouse { thread } => thread,
        Step::Write { thread } => thread,
        Step::Unlock { thread } => thread,
        Step::Wake { thread, .. } => thread,
    };
    // An owner that moves is the only owner there was.
    if s.phase(mover) is Holding {
        assert(s.holds(mover));
    }
    // Only the mover, and a sleeper that it wakes, change phase. So nobody
    // but the mover comes to own the lock or falls asleep, and nobody but the
    // mover learns anything.
    assert forall|t: nat| t != mover && #[trigger] n.phase(t) != s.phase(t) implies s.sleeps(t)
        && n.phase(t) is Contending by {}
    assert forall|t: nat| #[trigger] n.holds(t) && t != mover implies s.holds(t) by {}
    assert forall|t: nat| #[trigger] n.sleeps(t) && t != mover implies s.sleeps(t) by {}
    assert forall|t: nat| t != mover implies #[trigger] n.knows(t) == s.knows(t) by {}

    // At most one owner: of two, one owned the lock before, so the word was
    // taken and the mover cannot have come to own it by this step.
    assert forall|a: nat, b: nat| #[trigger] n.holds(a) && #[trigger] n.holds(b) implies a
        == b by {
        if a != b {
            assert(s.holds(a) || s.holds(b));
        }
    }

    // The word is taken exactly when somebody owns the lock.
    if n.word != UNLOCKED && !n.holds(mover) {
        let owner = choose|t: nat| s.holds(t);
        assert(n.holds(owner));
    }
    if exists|t: nat| n.holds(t) {
        let owner = choose|t: nat| n.holds(t);
        assert(owner == mover || s.holds(owner));
    }

    // The owner knows of every write: it has just learnt of them from the
    // word, or it knew before and nobody else has written.
    assert(s.knows(mover) <= n.knows(mover) <= n.writes);
    assert forall|t: nat| #[trigger] n.holds(t) implies n.knows(t) == n.writes by {
        assert(t == mover || s.holds(t));
    }

    // A sleeper is not left alone: the mover has woken a thread, or whoever
    // was going to wake the sleeper before still is.
    if exists|t: nat| n.sleeps(t) {
        let sleeper = choose|t: nat| n.sleeps(t);
        if n.word != LOCKED_WAITERS && !n.rouses(mover) {
            match step {
                Step::Wake { sleeper: Some(woken), .. } => {
                    assert(n.rouses(woken));
                },
                Step::Wake { sleeper: None, .. } => {
                    assert(!s.sleeps(sleeper));
                },
                _ => {
                    assert(s.sleeps(sleeper));
                    let waker = choose|t: nat| s.rouses(t);
                    assert(n.rouses(waker));
                },
            }
        }
    }
}

/// Every state of a run satisfies the invariant.
pub proof fn run_keeps_inv(run: Seq<System>, at: int)
    requires
        is_run(run),
        0 <= at < run.len(),
    ensures
        inv(run[at]),
    decreases at,
{
    if at == 0 {
        init_establishes_inv(run[0]);
    } else {
        run_keeps_inv(run, at - 1);
        assert(steps_from(run, at - 1));
        let before = run[at - 1];
        let after = run[at];
        let step = choose|step: Step| next_by(before, after, step);
        step_preserves_inv(before, after, step);
    }
}

/// The lock word never holds anything but one of its three values.
pub proof fn word_stays_a_lock_state(run: Seq<System>, at: int)
    requires
        is_run(run),
        0 <= at < run.len(),
    ensures
        is_lock_state(run[at].word),
{
    run_keeps_inv(run, at);
}

/// Spinning is bounded: a contender re-reads the word `SPIN_LIMIT` times at
/// most before it goes on to the kernel.
pub proof fn spinning_is_bounded(run: Seq<System>, at: int, thread: nat)
    requires
        is_run(run),
        0 <= at < run.len(),
    ensures
        run[at].phase(thread) matches Phase::Spinning { spins } ==> spins <= SPIN_LIMIT,
{
    run_keeps_inv(run, at);
}

/// Mutual exclusion: whatever the threads do and in whatever order, two
/// threads that own the lock at the same moment are one and the same.
pub proof fn mutual_exclusion(run: Seq<System>, at: int, a: nat, b: nat)
    requires
        is_run(run),
        0 <= at < run.len(),
        run[at].holds(a),
        run[at].holds(b),
    ensures
        a == b,
{
    run_keeps_inv(run, at);
}

/// The word is `UNLOCKED` exactly when no thread owns the lock: once every
/// acquisition has been paired with its release the word is back where it
/// began, and while one is outstanding it is not.
pub proof fn word_is_free_iff_unowned(run: Seq<System>, at: int)
    requires
        is_run(run),
        0 <= at < run.len(),
    ensures
        run[at].word == UNLOCKED <==> forall|t: nat| !run[at].holds(t),
{
    run_keeps_inv(run, at);
}

/// No lost wakeup: while any thread sleeps, a wake is on its way. Either the
/// lock is owned and its word makes the owner wake a sleeper when it
/// releases, or some thread is awake whose very next step calls for the wake
/// or puts the word into that state.
pub proof fn sleeper_is_not_forgotten(run: Seq<System>, at: int, sleeper: nat)
    requires
        is_run(run),
        0 <= at < run.len(),
        run[at].sleeps(sleeper),
    ensures
        run[at].wake_pending(),
        run[at].word == LOCKED_WAITERS ==> exists|owner: nat| run[at].holds(owner),
{
    run_keeps_inv(run, at);
}

/// Happens-before delivery: whoever owns the lock knows of every write that
/// was made to the protected value, its own and those of all owners before
/// it. What an owner wrote before it released is what the next owner reads.
pub proof fn owner_sees_every_write(run: Seq<System>, at: int, owner: nat)
    requires
        is_run(run),
        0 <= at < run.len(),
        run[at].holds(owner),
    ensures
        run[at].knows(owner) == run[at].writes,
{
    run_keeps_inv(run, at);
}

/// No acquisition in `run` ever failed on the fast path: no thread was ever
/// sent spinning.
pub open spec fn never_contended(run: Seq<System>) -> bool {
    forall|i: int, t: nat| 0 <= i < run.len() ==> !(#[trigger] run[i].phase(t) is Spinning)
}

/// Every thread is outside or owns the lock, and no waiter is announced.
spec fn calm(s: System) -> bool {
    &&& s.word != LOCKED_WAITERS
    &&& forall|t: nat| #[trigger] s.phase(t) is Idle || s.phase(t) is Holding
}

proof fn uncontended_run_stays_calm(run: Seq<System>, at: int)
    requires
        is_run(run),
        never_contended(run),
        0 <= at < run.len(),
    ensures
        calm(run[at]),
    decreases at,
{
    if at > 0 {
        uncontended_run_stays_calm(run, at - 1);
        run_keeps_inv(run, at - 1);
        assert(steps_from(run, at - 1));
        let before = run[at - 1];
        let after = run[at];
        let step = choose|step: Step| next_by(before, after, step);
        // From a calm state only two steps can be taken: a fast path, which
        // wins because a loser would be spinning, and a release, which finds
        // no waiter announced.
        assert forall|t: nat| #[trigger] after.phase(t) is Idle || after.phase(t) is Holding by {
            assert(before.phase(t) is Idle || before.phase(t) is Holding);
            assert(!(after.phase(t) is Spinning));
        }
    }
}

/// No wake without contention: as long as every acquisition succeeds on the
/// fast path, the word never shows a waiter and no release is followed by a
/// call of the wake service.
pub proof fn uncontended_release_never_wakes(run: Seq<System>, at: int, thread: nat)
    requires
        is_run(run),
        never_contended(run),
        0 <= at < run.len(),
    ensures
        run[at].word != LOCKED_WAITERS,
        !(run[at].phase(thread) is Waking),
{
    uncontended_run_stays_calm(run, at);
}

/// `thread` is awake in `s`, or can be after `within` steps at most, none of
/// which is the first step of a thread that was outside.
pub open spec fn can_wake(s: System, thread: nat, within: nat) -> bool
    decreases within,
{
    !s.sleeps(thread) || (within > 0 && exists|step: Step, n: System|
        #![trigger next_by(s, n, step)]
        !(step is TryLock) && next_by(s, n, step) && can_wake(n, thread, (within - 1) as nat))
}

proof fn waker_can_wake(s: System, waker: nat, thread: nat)
    requires
        s.phase(waker) is Waking,
        s.sleeps(thread),
    ensures
        can_wake(s, thread, 1),
{
    let step = Step::Wake { thread: waker, sleeper: Some(thread) };
    let n = s.moved(thread, Phase::Contending, s.word).moved(waker, Phase::Idle, s.word);
    assert(next_by(s, n, step));
    assert(can_wake(n, thread, 0));
}

proof fn owner_can_wake(s: System, owner: nat, thread: nat)
    requires
        s.holds(owner),
        s.word == LOCKED_WAITERS,
        s.sleeps(thread),
    ensures
        can_wake(s, thread, 2),
{
    let step = Step::Unlock { thread: owner };
    let n = s.moved(owner, Phase::Waking, UNLOCKED).told(owner, give_order());
    assert(next_by(s, n, step));
    waker_can_wake(n, owner, thread);
}

proof fn contender_can_wake(s: System, contender: nat, thread: nat)
    requires
        inv(s),
        s.phase(contender) is Contending,
        s.sleeps(thread),
    ensures
        can_wake(s, thread, 3),
{
    let step = Step::Announce { thread: contender };
    let n = s.moved(
        contender,
        if announce(s.word).1 {
            Phase::Holding
        } else {
            Phase::Parking
        },
        LOCKED_WAITERS,
    ).learnt(contender, take_order());
    assert(next_by(s, n, step));
    // The word now tells of waiters, so somebody owns the lock: the contender
    // itself, or whoever made its swap fail.
    step_preserves_inv(s, n, step);
    let owner = choose|t: nat| n.holds(t);
    owner_can_wake(n, owner, thread);
}

/// A sleeper can always be woken: from every state that a run reaches, three
/// steps at most, all by threads that are already engaged with the lock, lead
/// to a state in which `sleeper` is awake.
pub proof fn sleeper_can_be_woken(run: Seq<System>, at: int, sleeper: nat)
    requires
        is_run(run),
        0 <= at < run.len(),
        run[at].sleeps(sleeper),
    ensures
        can_wake(run[at], sleeper, 3),
{
    run_keeps_inv(run, at);
    let s = run[at];
    if s.word == LOCKED_WAITERS {
        let owner = choose|t: nat| s.holds(t);
        owner_can_wake(s, owner, sleeper);
        can_wake_later(s, sleeper, 2, 3);
    } else {
        let r = choose|t: nat| s.rouses(t);
        if s.phase(r) is Waking {
            waker_can_wake(s, r, sleeper);
            can_wake_later(s, sleeper, 1, 3);
        } else {
            contender_can_wake(s, r, sleeper);
        }
    }
}

proof fn can_wake_later(s: System, thread: nat, within: nat, later: nat)
    requires
        can_wake(s, thread, within),
        within <= later,
    ensures
        can_wake(s, thread, later),
    decreases within,
{
    if s.sleeps(thread) {
        let (step, n) = choose|step: Step, n: System|
            #![trigger next_by(s, n, step)]
            !(step is TryLock) && next_by(s, n, step) && can_wake(
                n,
                thread,
                (within - 1) as nat,
            );
        can_wake_later(n, thread, (within - 1) as nat, (later - 1) as nat);
    }
}

/// Contention is within the system's reach: there is a run at whose end one
/// thread owns the lock while another sleeps on the word.
pub proof fn a_contender_falls_asleep() -> (run: Seq<System>)
    ensures
        is_run(run),
        run.last().holds(0),
        run.last().sleeps(1),
        run.last().word == LOCKED_WAITERS,
{
    let s0 = System {
        word: UNLOCKED,
        threads: Map::empty(),
        writes: 0,
        carried: 0,
        known: Map::empty(),
    };
    let s1 = s0.moved(0, Phase::Holding, LOCKED_NO_WAITERS);
    let s2 = s1.moved(1, Phase::Spinning { spins: 0 }, LOCKED_NO_WAITERS);
    let s3 = s2.moved(1, Phase::Retrying, LOCKED_NO_WAITERS);
    let s4 = s3.moved(1, Phase::Contending, LOCKED_NO_WAITERS);
    let s5 = s4.moved(1, Phase::Parking, LOCKED_WAITERS);
    let s6 = s5.moved(1, Phase::Asleep, LOCKED_WAITERS);
    let run = seq![s0, s1, s2, s3, s4, s5, s6];
    assert(next_by(s0, s1, Step::TryLock { thread: 0 }));
    assert(next_by(s1, s2, Step::TryLock { thread: 1 }));
    assert(next_by(s2, s3, Step::Spin { thread: 1, observed: LOCKED_WAITERS }));
    assert(next_by(s3, s4, Step::Retry { thread: 1 }));
    assert(next_by(s4, s5, Step::Announce { thread: 1 }));
    assert(next_by(s5, s6, Step::Park { thread: 1 }));
    assert forall|i: int| 0 <= i < run.len() - 1 implies #[trigger] steps_from(run, i) by {}
    run
}

} // verus!
