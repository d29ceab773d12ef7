use atomic_locks::word::{LOCKED_NO_WAITERS, LOCKED_WAITERS, UNLOCKED};
use atomic_locks::{Mutex, MutexGuard};
use std::sync::atomic::{AtomicU64, Ordering};

fn leaves_early(mutex: &Mutex<AtomicU64>, early: bool) -> u32 {
    let guard = mutex.lock(0).expect("the lock is free");
    guard.fetch_add(1, Ordering::Relaxed);
    if early {
        return 1;
    }
    guard.fetch_add(1, Ordering::Relaxed);
    2
}

#[test]
fn new_mutex_is_unlocked() {
    let mutex = Mutex::new(0i32);
    assert_eq!(mutex.state(), UNLOCKED);
    assert_eq!(mutex.state(), 0);
}

#[test]
fn new_mutex_holds_the_initial_value() {
    let mutex = Mutex::new(17i32);
    assert_eq!(*mutex.lock(0).unwrap(), 17);
    let text = Mutex::new("hello");
    assert_eq!(*text.lock(0).unwrap(), "hello");
}

#[test]
fn fast_path_takes_the_lock_without_waiters() {
    let mutex = Mutex::new(());
    let guard = mutex.lock(0);
    assert!(guard.is_some());
    assert_eq!(mutex.state(), LOCKED_NO_WAITERS);
    assert_eq!(mutex.state(), 1);
    drop(guard);
    assert_eq!(mutex.state(), UNLOCKED);
}

#[test]
fn second_acquisition_fails_while_guard_lives() {
    let mutex = Mutex::new(());
    let guard = mutex.lock(0).unwrap();
    assert!(mutex.lock(0).is_none());
    assert!(mutex.lock(0).is_none());
    drop(guard);
    assert!(mutex.lock(0).is_some());
}

#[test]
fn failed_contender_leaves_the_waiters_mark() {
    let mutex = Mutex::new(());
    let guard = mutex.lock(0).unwrap();
    assert_eq!(mutex.state(), LOCKED_NO_WAITERS);
    assert!(mutex.lock(0).is_none());
    assert_eq!(mutex.state(), LOCKED_WAITERS);
    assert_eq!(mutex.state(), 2);
    drop(guard);
    assert_eq!(mutex.state(), UNLOCKED);
}

#[test]
fn release_after_contention_frees_the_lock() {
    let mutex = Mutex::new(());
    {
        let _guard = mutex.lock(0).unwrap();
        assert!(mutex.lock(0).is_none());
    }
    assert_eq!(mutex.state(), UNLOCKED);
    let again = mutex.lock(5);
    assert!(again.is_some());
    assert_eq!(mutex.state(), LOCKED_NO_WAITERS);
}

#[test]
fn uncontended_pair_never_marks_waiters() {
    let mutex = Mutex::new(());
    for _ in 0..100 {
        let guard = mutex.lock(3).unwrap();
        assert_eq!(mutex.state(), LOCKED_NO_WAITERS);
        drop(guard);
        assert_eq!(mutex.state(), UNLOCKED);
    }
}

#[test]
fn any_number_of_pairs_ends_unlocked() {
    let mutex = Mutex::new(());
    for round in 0..500u32 {
        let guard = mutex.lock(0).unwrap();
        if round % 3 == 0 {
            assert!(mutex.lock(0).is_none());
        }
        drop(guard);
    }
    assert_eq!(mutex.state(), UNLOCKED);
}

#[test]
fn guard_releases_on_early_return() {
    let mutex = Mutex::new(AtomicU64::new(0));
    assert_eq!(leaves_early(&mutex, true), 1);
    assert_eq!(mutex.state(), UNLOCKED);
    assert_eq!(mutex.lock(0).unwrap().load(Ordering::Relaxed), 1);
    assert_eq!(leaves_early(&mutex, false), 2);
    assert_eq!(mutex.state(), UNLOCKED);
    assert_eq!(mutex.lock(0).unwrap().load(Ordering::Relaxed), 3);
}

#[test]
fn guard_names_its_mutex() {
    let mutex = Mutex::new(1u8);
    let other = Mutex::new(2u8);
    let guard: MutexGuard<'_, u8> = mutex.lock(0).unwrap();
    assert!(std::ptr::eq(guard.mutex(), &mutex));
    assert!(!std::ptr::eq(guard.mutex(), &other));
    assert_eq!(other.state(), UNLOCKED);
    assert_eq!(guard.mutex().state(), LOCKED_NO_WAITERS);
    assert_eq!(*guard, 1);
}

#[test]
fn value_written_before_release_is_seen_after_acquire() {
    let mutex = Mutex::new(AtomicU64::new(0));
    for round in 1..=2000u64 {
        let guard = mutex.lock(0).unwrap();
        assert_eq!(guard.load(Ordering::Relaxed), round - 1);
        guard.store(round, Ordering::Relaxed);
        drop(guard);
    }
    assert_eq!(mutex.lock(0).unwrap().load(Ordering::Relaxed), 2000);
}

#[test]
fn ten_workers_of_a_hundred_increments_make_a_thousand() {
    let mutex = Mutex::new(AtomicU64::new(0));
    for _worker in 0..10 {
        for _ in 0..100 {
            let guard = mutex.lock(0).unwrap();
            let seen = guard.load(Ordering::Relaxed);
            guard.store(seen + 1, Ordering::Relaxed);
        }
    }
    assert_eq!(mutex.lock(0).unwrap().load(Ordering::Relaxed), 1000);
    assert_eq!(mutex.state(), UNLOCKED);
}
