use atomic_locks::{Guard, SpinLock};
use std::sync::atomic::{AtomicU64, Ordering};

fn leaves_early(lock: &SpinLock<AtomicU64>, early: bool) -> u32 {
    let guard = lock.lock(1).expect("the lock is free");
    guard.fetch_add(1, Ordering::Relaxed);
    if early {
        return 1;
    }
    guard.fetch_add(1, Ordering::Relaxed);
    2
}

#[test]
fn new_spin_lock_is_free() {
    let lock = SpinLock::new(5u8);
    let guard = lock.lock(1);
    assert!(guard.is_some());
    assert_eq!(*guard.unwrap(), 5);
}

#[test]
fn no_attempt_no_guard() {
    let lock = SpinLock::new(());
    assert!(lock.lock(0).is_none());
    assert!(lock.lock(1).is_some());
}

#[test]
fn spin_second_acquisition_fails_while_guard_lives() {
    let lock = SpinLock::new(());
    let guard = lock.lock(1);
    assert!(guard.is_some());
    assert!(lock.lock(1).is_none());
    assert!(lock.lock(50).is_none());
    drop(guard);
    assert!(lock.lock(1).is_some());
}

#[test]
fn guard_releases_at_end_of_scope() {
    let lock = SpinLock::new(());
    {
        let _guard = lock.lock(1).unwrap();
        assert!(lock.lock(1).is_none());
    }
    assert!(lock.lock(1).is_some());
}

#[test]
fn spin_guard_releases_on_early_return() {
    let lock = SpinLock::new(AtomicU64::new(0));
    assert_eq!(leaves_early(&lock, true), 1);
    assert_eq!(lock.lock(1).unwrap().load(Ordering::Relaxed), 1);
    assert_eq!(leaves_early(&lock, false), 2);
    assert_eq!(lock.lock(1).unwrap().load(Ordering::Relaxed), 3);
}

#[test]
fn unlock_gives_the_lock_back() {
    let lock = SpinLock::new(());
    let guard: Guard<'_, ()> = lock.lock(1).unwrap();
    assert!(lock.lock(1).is_none());
    SpinLock::unlock(guard);
    assert!(lock.lock(1).is_some());
}

#[test]
fn guard_names_its_lock() {
    let lock = SpinLock::new(1u32);
    let other = SpinLock::new(2u32);
    let guard = lock.lock(1).unwrap();
    assert!(std::ptr::eq(guard.lock(), &lock));
    assert!(!std::ptr::eq(guard.lock(), &other));
    assert_eq!(*guard, 1);
    assert_eq!(*other.lock(1).unwrap(), 2);
}

#[test]
fn guard_leads_to_the_protected_value() {
    let lock = SpinLock::new(vec![1, 2, 3]);
    let guard = lock.lock(1).unwrap();
    assert_eq!(guard.as_slice(), [1, 2, 3]);
    assert_eq!(guard.len(), 3);
}

#[test]
fn ten_workers_of_a_hundred_increments_count_to_a_thousand() {
    let lock = SpinLock::new(AtomicU64::new(0));
    for _worker in 0..10 {
        for _ in 0..100 {
            let guard = lock.lock(1).unwrap();
            let seen = guard.load(Ordering::Relaxed);
            guard.store(seen + 1, Ordering::Relaxed);
        }
    }
    assert_eq!(lock.lock(1).unwrap().load(Ordering::Relaxed), 1000);
}
