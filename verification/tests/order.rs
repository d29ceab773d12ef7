use atomic_locks::order::{giving, looking, taking};
use std::sync::atomic::Ordering;

#[test]
fn taking_acquires() {
    assert_eq!(taking(), Ordering::Acquire);
}

#[test]
fn giving_releases() {
    assert_eq!(giving(), Ordering::Release);
}

#[test]
fn looking_is_relaxed() {
    assert_eq!(looking(), Ordering::Relaxed);
}
