use atomic_locks::channel::{may_read, may_write};
use atomic_locks::Channel;

#[test]
fn can_send_and_receive_one_message() {
    let c = Channel::new();
    assert!(c.send(42));
    assert!(c.is_ready());
    assert_eq!(c.receive(), Some(42));
}

#[test]
fn new_channel_is_not_ready() {
    let c = Channel::new();
    assert!(!c.is_ready());
}

#[test]
fn nothing_to_receive_before_send() {
    let c = Channel::new();
    assert_eq!(c.receive(), None);
    assert!(!c.is_ready());
}

#[test]
fn message_is_received_once() {
    let c = Channel::new();
    assert!(c.send(1000));
    assert_eq!(c.receive(), Some(1000));
    assert!(!c.is_ready());
    assert_eq!(c.receive(), None);
}

#[test]
fn second_send_is_refused() {
    let c = Channel::new();
    assert!(c.send(7));
    assert!(!c.send(8));
    assert_eq!(c.receive(), Some(7));
    assert!(!c.send(9));
    assert_eq!(c.receive(), None);
}

#[test]
fn zero_and_max_go_through() {
    let a = Channel::new();
    assert!(a.send(0));
    assert_eq!(a.receive(), Some(0));
    let b = Channel::new();
    assert!(b.send(u64::MAX));
    assert_eq!(b.receive(), Some(u64::MAX));
}

#[test]
fn first_claim_wins() {
    assert!(may_write(false));
    assert!(!may_write(true));
    assert!(may_read(true));
    assert!(!may_read(false));
}
