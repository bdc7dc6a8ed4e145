use asyncrt::reactor::Reactor;

#[test]
fn ids_start_at_one() {
    let mut r: Reactor<u8> = Reactor::new();
    assert_eq!(r.next_id(), 1);
    assert_eq!(r.next_id(), 2);
}

#[test]
fn latest_waker_is_woken() {
    let mut r: Reactor<&str> = Reactor::new();
    assert!(r.set_waker(5, "first"));
    assert!(!r.set_waker(5, "second"));
    assert_eq!(r.waker_for(5), Some(&"second"));
    assert_eq!(r.waker_for(6), None);
    r.deregister(5);
    assert_eq!(r.waker_for(5), None);
}
