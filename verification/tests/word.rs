use atomic_locks::word::{
    after_announce, keep_spinning, wake_owed, Contend, LOCKED_NO_WAITERS, LOCKED_WAITERS,
    SPIN_LIMIT, UNLOCKED,
};

#[test]
fn lock_word_values() {
    assert_eq!(UNLOCKED, 0);
    assert_eq!(LOCKED_NO_WAITERS, 1);
    assert_eq!(LOCKED_WAITERS, 2);
    assert_eq!(SPIN_LIMIT, 100);
}

#[test]
fn spins_only_while_owner_is_alone() {
    assert!(keep_spinning(LOCKED_NO_WAITERS, 0));
    assert!(keep_spinning(LOCKED_NO_WAITERS, 99));
    assert!(!keep_spinning(UNLOCKED, 0));
    assert!(!keep_spinning(LOCKED_WAITERS, 0));
    assert!(!keep_spinning(7, 0));
}

#[test]
fn spin_budget_runs_out() {
    assert!(keep_spinning(LOCKED_NO_WAITERS, SPIN_LIMIT - 1));
    assert!(!keep_spinning(LOCKED_NO_WAITERS, SPIN_LIMIT));
    assert!(!keep_spinning(LOCKED_NO_WAITERS, u32::MAX));
}

#[test]
fn swap_that_finds_the_word_free_acquires() {
    assert_eq!(after_announce(UNLOCKED, 0), Contend::Acquired);
    assert_eq!(after_announce(UNLOCKED, 9), Contend::Acquired);
}

#[test]
fn swap_that_finds_the_lock_taken_parks_or_gives_up() {
    assert_eq!(after_announce(LOCKED_NO_WAITERS, 1), Contend::Park);
    assert_eq!(after_announce(LOCKED_WAITERS, 1), Contend::Park);
    assert_eq!(after_announce(LOCKED_WAITERS, u32::MAX), Contend::Park);
    assert_eq!(after_announce(LOCKED_NO_WAITERS, 0), Contend::GiveUp);
    assert_eq!(after_announce(LOCKED_WAITERS, 0), Contend::GiveUp);
}

#[test]
fn wake_only_when_waiters_were_announced() {
    assert!(wake_owed(LOCKED_WAITERS));
    assert!(!wake_owed(LOCKED_NO_WAITERS));
    assert!(!wake_owed(UNLOCKED));
    assert!(!wake_owed(3));
}

#[test]
fn two_logical_threads_hand_the_lock_over() {
    // One word, two threads whose steps are taken in turn by hand.
    let mut word = UNLOCKED;
    // A: fast path.
    assert_eq!(word, UNLOCKED);
    word = LOCKED_NO_WAITERS;
    // B: fast path fails, spins out, swaps.
    let mut spins = 0;
    while keep_spinning(word, spins) {
        spins += 1;
    }
    assert_eq!(spins, SPIN_LIMIT);
    let previous = word;
    word = LOCKED_WAITERS;
    assert_eq!(after_announce(previous, 1), Contend::Park);
    // A: releases and owes a wake.
    let previous = word;
    word = UNLOCKED;
    assert!(wake_owed(previous));
    // B: woken, swaps again and owns the lock, with the mark kept.
    let previous = word;
    word = LOCKED_WAITERS;
    assert_eq!(after_announce(previous, 0), Contend::Acquired);
    // B: releases; the mark costs one wake that nobody needs.
    let previous = word;
    word = UNLOCKED;
    assert!(wake_owed(previous));
    assert_eq!(word, UNLOCKED);
}
