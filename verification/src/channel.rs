//! A channel for one message of one machine word.
//!
//! Two flags order the access to the slot that carries the message. `in_use`
//! goes up when a sender claims the slot, so only the first sender writes.
//! `ready` goes up once the message is written and down again when a receiver
//! claims it, so the message is read after it was written and only once.
//!
//! The second half of this file is the channel as a transition system, with
//! the proof that no interleaving of senders and receivers breaks this. The
//! slot is written and read with relaxed ordering; what makes the write
//! visible to the reader is the ordering of the store that raises `ready`
//! and of the exchange that takes it down, and the model says so: a reader
//! that was not told of the write reads the slot as it was made. The
//! orderings are those of [`crate::order`], in the model as in the code.

use crate::order::{give_order, giving, learns, looking, take_order, taking, tells};
use std::sync::atomic::{AtomicBool, AtomicU64};
use vstd::prelude::*;

verus! {

/// A one-shot channel. Any thread may try to send and any thread may try to
/// receive; one message gets through in the life of the channel.
pub struct Channel {
    message: AtomicU64,
    ready: AtomicBool,
    in_use: AtomicBool,
}

/// The sender's exchange on `in_use`, which found `in_use` there: the flag it
/// leaves, and whether the sender is the first.
pub open spec fn claim_slot(in_use: bool) -> (bool, bool) {
    (true, !in_use)
}

/// The receiver's exchange on `ready`, which found `ready` there: the flag it
/// leaves, and whether a message is the receiver's.
pub open spec fn claim_message(ready: bool) -> (bool, bool) {
    (false, ready)
}

/// Whether a sender whose exchange on `in_use` returned `previous` may write.
pub fn may_write(previous: bool) -> (first: bool)
    ensures
        first == claim_slot(previous).1,
{
    !previous
}

/// Whether a receiver whose exchange on `ready` returned `previous` may read.
pub fn may_read(previous: bool) -> (available: bool)
    ensures
        available == claim_message(previous).1,
{
    previous
}

impl Channel {
    /// A channel through which nothing was sent yet.
    pub fn new() -> (channel: Self) {
        Channel {
            message: AtomicU64::new(0),
            ready: AtomicBool::new(false),
            in_use: AtomicBool::new(false),
        }
    }

    /// Sends `message`, unless a message was sent through this channel
    /// before. Returns whether this message is the one that went in.
    ///
    /// The store that raises `ready` releases the message to the receiver
    /// whose exchange takes the flag down.
    pub fn send(&self, message: u64) -> (accepted: bool) {
        let previous: bool = self.in_use.swap(true, looking());
        if !may_write(previous) {
            return false;
        }
        self.message.store(message, looking());
        self.ready.store(true, giving());
        true
    }

    /// Whether a message waits to be received, as far as this thread can see
    /// now. A `true` stays true until some thread receives.
    pub fn is_ready(&self) -> (ready: bool) {
        self.ready.load(looking())
    }

    /// Takes the message out, if one waits. `None` when nothing was sent yet
    /// or the message is gone already.
    pub fn receive(&self) -> (message: Option<u64>) {
        let previous: bool = self.ready.swap(false, taking());
        if !may_read(previous) {
            return None;
        }
        Some(self.message.load(looking()))
    }
}

/// Where a thread stands between the steps of `send` and `receive`.
pub enum Role {
    /// Between calls.
    Idle,
    /// A sender that has claimed the slot and is about to write `message`.
    Writing { message: u64 },
    /// A sender that has written and is about to raise `ready`.
    Publishing,
    /// A receiver that has claimed the message and is about to read it.
    Reading,
}

/// The channel and its users. `sent` lists the messages that `send` accepted
/// and `received` those that `receive` returned, each in order.
pub struct Exchange {
    pub in_use: bool,
    pub ready: bool,
    pub slot: u64,
    /// What the slot held when the channel was made.
    pub blank: u64,
    pub roles: Map<nat, Role>,
    /// The threads that are sure to see the write to the slot.
    pub informed: Set<nat>,
    /// Whether `ready` tells its next acquiring reader of the write.
    pub carried: bool,
    pub sent: Seq<u64>,
    pub received: Seq<u64>,
}

/// One atomic operation of one thread.
pub enum Move {
    /// `send`'s exchange on `in_use`.
    ClaimSlot { thread: nat, message: u64 },
    /// `send`'s store of the message.
    Write { thread: nat },
    /// `send`'s store that raises `ready`, which gives the message away.
    Publish { thread: nat },
    /// `receive`'s exchange on `ready`, which takes the message.
    ClaimMessage { thread: nat },
    /// `receive`'s load of the message.
    Read { thread: nat },
}

impl Exchange {
    /// The role of `thread`; one that the map does not mention is idle.
    pub open spec fn role(self, thread: nat) -> Role {
        if self.roles.contains_key(thread) {
            self.roles[thread]
        } else {
            Role::Idle
        }
    }

    /// `thread` is inside `send`, between the claim and the raising of `ready`.
    pub open spec fn sends(self, thread: nat) -> bool {
        self.role(thread) is Writing || self.role(thread) is Publishing
    }

    /// `thread` is inside `receive`, between the claim and the read.
    pub open spec fn reads(self, thread: nat) -> bool {
        self.role(thread) is Reading
    }

    /// This state with `thread` in `role`.
    pub open spec fn cast(self, thread: nat, role: Role) -> Exchange {
        Exchange { roles: self.roles.insert(thread, role), ..self }
    }

    /// What `thread` finds when it loads the slot: the message if it was told
    /// of the write, and else what the slot held at first.
    pub open spec fn loaded_by(self, thread: nat) -> u64 {
        if self.informed.contains(thread) {
            self.slot
        } else {
            self.blank
        }
    }
}

/// A fresh channel: both flags down, nothing sent, every thread between calls.
pub open spec fn fresh(x: Exchange) -> bool {
    &&& !x.in_use
    &&& !x.ready
    &&& !x.carried
    &&& x.slot == x.blank
    &&& x.sent.len() == 0
    &&& x.received.len() == 0
    &&& forall|t: nat| #[trigger] x.role(t) is Idle
    &&& forall|t: nat| !x.informed.contains(t)
}

/// `x` becomes `y` by `m`.
pub open spec fn moves(x: Exchange, y: Exchange, m: Move) -> bool {
    match m {
        Move::ClaimSlot { thread, message } => {
            &&& x.role(thread) is Idle
            &&& if claim_slot(x.in_use).1 {
                y == (Exchange {
                    in_use: claim_slot(x.in_use).0,
                    sent: x.sent.push(message),
                    ..x
                }).cast(thread, Role::Writing { message })
            } else {
                y == (Exchange { in_use: claim_slot(x.in_use).0, ..x }).cast(thread, Role::Idle)
            }
        },
        Move::Write { thread } => {
            &&& x.role(thread) matches Role::Writing { message }
            &&& y == (Exchange { slot: message, informed: x.informed.insert(thread), ..x }).cast(
                thread,
                Role::Publishing,
            )
        },
        Move::Publish { thread } => {
            &&& x.role(thread) is Publishing
            &&& y == (Exchange {
                ready: true,
                carried: tells(give_order()) && x.informed.contains(thread),
                ..x
            }).cast(thread, Role::Idle)
        },
        Move::ClaimMessage { thread } => {
            &&& x.role(thread) is Idle
            &&& y == (Exchange {
                ready: claim_message(x.ready).0,
                informed: if learns(take_order()) && x.carried {
                    x.informed.insert(thread)
                } else {
                    x.informed
                },
                ..x
            }).cast(
                thread,
                if claim_message(x.ready).1 {
                    Role::Reading
                } else {
                    Role::Idle
                },
            )
        },
        Move::Read { thread } => {
            &&& x.role(thread) is Reading
            &&& y == (Exchange { received: x.received.push(x.loaded_by(thread)), ..x }).cast(
                thread,
                Role::Idle,
            )
        },
    }
}

/// `x` becomes `y` by some move of some thread.
pub open spec fn follows(x: Exchange, y: Exchange) -> bool {
    exists|m: Move| moves(x, y, m)
}

/// The message is in the slot and the sender has left: nobody is between the
/// steps of `send`, and `ready`, up or down, tells of the write.
pub open spec fn settled(x: Exchange) -> bool {
    &&& x.sent.len() == 1
    &&& x.slot == x.sent[0]
    &&& x.carried
    &&& forall|t: nat| !#[trigger] x.sends(t)
}

/// What every reachable state of the channel satisfies.
pub open spec fn sound(x: Exchange) -> bool {
    // The slot is claimed exactly when a message was accepted, and only one is.
    &&& x.sent.len() <= 1
    &&& x.in_use <==> x.sent.len() == 1
    // One thread at most is inside `send`. It is about to write the accepted
    // message, or has written it and knows that it has.
    &&& forall|a: nat, b: nat| #[trigger] x.sends(a) && #[trigger] x.sends(b) ==> a == b
    &&& forall|t: nat| #[trigger]
        x.role(t) matches Role::Writing { message } ==> x.sent.len() == 1 && x.sent[0] == message
    &&& forall|t: nat| #[trigger]
        x.role(t) is Publishing ==> x.sent.len() == 1 && x.slot == x.sent[0] && x.informed.contains(
            t,
        )
    // One thread at most is inside `receive`, and it was told of the write.
    &&& forall|a: nat, b: nat| #[trigger] x.reads(a) && #[trigger] x.reads(b) ==> a == b
    &&& forall|t: nat| #[trigger] x.reads(t) ==> x.informed.contains(t)
    // The message is on offer, being read, or delivered, and never two of
    // these; whichever it is, the message is settled in the slot.
    &&& x.ready ==> x.received.len() == 0 && forall|t: nat| !#[trigger] x.reads(t)
    &&& (exists|t: nat| x.reads(t)) ==> x.received.len() == 0
    &&& x.ready || x.received.len() > 0 || (exists|t: nat| x.reads(t)) ==> settled(x)
    &&& x.received.len() <= 1
    &&& x.received.len() == 1 ==> x.received[0] == x.sent[0]
}

/// The states of `history` at `at` and after it follow by a move.
pub open spec fn moves_at(history: Seq<Exchange>, at: int) -> bool {
    follows(history[at], history[at + 1])
}

/// `history` begins with a fresh channel and goes on by moves of any threads
/// in any order.
pub open spec fn is_history(history: Seq<Exchange>) -> bool {
    &&& history.len() > 0
    &&& fresh(history[0])
    &&& forall|i: int| 0 <= i < history.len() - 1 ==> #[trigger] moves_at(history, i)
}

proof fn fresh_is_sound(x: Exchange)
    requires
        fresh(x),
    ensures
        sound(x),
{
    assert forall|t: nat| !x.sends(t) && !x.reads(t) by {
        assert(x.role(t) is Idle);
    }
}

proof fn move_keeps_sound(x: Exchange, y: Exchange, m: Move)
    requires
        sound(x),
        moves(x, y, m),
    ensures
        sound(y),
{
    let mover: nat = match m {
        Move::ClaimSlot { thread, .. } => thread,
        Move::Write { thread } => thread,
        Move::Publish { thread } => thread,
        Move::ClaimMessage { thread } => thread,
        Move::Read { thread } => thread,
    };
    // Only the mover changes its role.
    assert forall|t: nat| t != mover implies #[trigger] y.role(t) == x.role(t) by {}
    assert forall|t: nat| #[trigger] y.sends(t) && t != mover implies x.sends(t) by {}
    assert forall|t: nat| #[trigger] y.reads(t) && t != mover implies x.reads(t) by {}
    // A reader there is now is the mover or was a reader before.
    if exists|t: nat| y.reads(t) {
        let reader = choose|t: nat| y.reads(t);
        assert(reader == mover || x.reads(reader));
    }
    match m {
        Move::ClaimSlot { thread, message } => {
            if claim_slot(x.in_use).1 {
                // Nothing was accepted before, so nobody is sending, nothing
                // is on offer and nothing was delivered.
                assert forall|t: nat| !x.sends(t) by {}
            }
        },
        Move::Write { thread } => {
            // The writer is the one sender, so no message is settled yet.
            assert(x.sends(thread));
        },
        Move::Publish { thread } => {
            // The one sender leaves, and leaves the message settled.
            assert(x.sends(thread));
            assert forall|t: nat| !y.sends(t) by {}
        },
        Move::ClaimMessage { thread } => {},
        Move::Read { thread } => {
            // The one reader leaves with the settled message.
            assert(x.reads(thread));
            assert forall|t: nat| !y.reads(t) by {}
        },
    }
}

/// Every state of a history is sound.
pub proof fn history_stays_sound(history: Seq<Exchange>, at: int)
    requires
        is_history(history),
        0 <= at < history.len(),
    ensures
        sound(history[at]),
    decreases at,
{
    if at == 0 {
        fresh_is_sound(history[0]);
    } else {
        history_stays_sound(history, at - 1);
        assert(moves_at(history, at - 1));
        let before = history[at - 1];
        let after = history[at];
        let m = choose|m: Move| moves(before, after, m);
        move_keeps_sound(before, after, m);
    }
}

/// One message at most is accepted, and one at most comes out: the one that
/// went in.
pub proof fn delivers_what_was_sent_once(history: Seq<Exchange>, at: int)
    requires
        is_history(history),
        0 <= at < history.len(),
    ensures
        history[at].sent.len() <= 1,
        history[at].received.len() <= history[at].sent.len(),
        history[at].received.len() == 1 ==> history[at].received[0] == history[at].sent[0],
{
    history_stays_sound(history, at);
}

/// The slot is never written while it is read, never written by two threads
/// and never read by two: while one thread is between the steps of `send` or
/// of `receive`, no other is.
pub proof fn slot_has_one_user(history: Seq<Exchange>, at: int, a: nat, b: nat)
    requires
        is_history(history),
        0 <= at < history.len(),
        history[at].sends(a) || history[at].reads(a),
        history[at].sends(b) || history[at].reads(b),
    ensures
        a == b,
{
    history_stays_sound(history, at);
}

/// A message is read only after it was written, and the reader sees the
/// write: a receiver that has claimed the message loads from the slot what
/// the sender was given.
pub proof fn reader_finds_the_message(history: Seq<Exchange>, at: int, reader: nat)
    requires
        is_history(history),
        0 <= at < history.len(),
        history[at].reads(reader),
    ensures
        history[at].sent.len() == 1,
        history[at].loaded_by(reader) == history[at].sent[0],
{
    history_stays_sound(history, at);
}

/// A raised `ready` is the truth: while it is up, a message is in the slot,
/// no receiver has taken it and its sender has left.
pub proof fn ready_means_a_message_waits(history: Seq<Exchange>, at: int)
    requires
        is_history(history),
        0 <= at < history.len(),
        history[at].ready,
    ensures
        settled(history[at]),
        history[at].received.len() == 0,
{
    history_stays_sound(history, at);
}

/// Delivery is within the channel's reach: there is a history in which one
/// thread sends `message` and another receives it.
pub proof fn a_message_gets_through(message: u64) -> (history: Seq<Exchange>)
    ensures
        is_history(history),
        history.last().sent =~= seq![message],
        history.last().received =~= seq![message],
{
    let x0 = Exchange {
        in_use: false,
        ready: false,
        slot: 0,
        blank: 0,
        roles: Map::empty(),
        informed: Set::empty(),
        carried: false,
        sent: seq![],
        received: seq![],
    };
    let x1 = (Exchange { in_use: true, sent: seq![message], ..x0 }).cast(
        0,
        Role::Writing { message },
    );
    let x2 = (Exchange { slot: message, informed: x1.informed.insert(0), ..x1 }).cast(
        0,
        Role::Publishing,
    );
    let x3 = (Exchange { ready: true, carried: true, ..x2 }).cast(0, Role::Idle);
    let x4 = (Exchange { ready: false, informed: x3.informed.insert(1), ..x3 }).cast(
        1,
        Role::Reading,
    );
    let x5 = (Exchange { received: seq![message], ..x4 }).cast(1, Role::Idle);
    let history = seq![x0, x1, x2, x3, x4, x5];
    assert(moves(x0, x1, Move::ClaimSlot { thread: 0, message }));
    assert(moves(x1, x2, Move::Write { thread: 0 }));
    assert(moves(x2, x3, Move::Publish { thread: 0 }));
    assert(moves(x3, x4, Move::ClaimMessage { thread: 1 }));
    assert(moves(x4, x5, Move::Read { thread: 1 }));
    assert forall|i: int| 0 <= i < history.len() - 1 implies #[trigger] moves_at(history, i) by {}
    history
}

} // verus!
