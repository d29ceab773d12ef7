use atomic_locks::{wait, wake_one};
use std::sync::atomic::{AtomicU32, Ordering};

#[test]
fn wait_returns_when_the_word_differs() {
    let word = AtomicU32::new(0);
    wait(&word, 1);
    wait(&word, 2);
    assert_eq!(word.load(Ordering::Relaxed), 0);
}

#[test]
fn wake_without_sleepers_does_nothing() {
    let word = AtomicU32::new(2);
    wake_one(&word);
    wake_one(&word);
    assert_eq!(word.load(Ordering::Relaxed), 2);
}
