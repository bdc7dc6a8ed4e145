use asyncrt::epoll::{Event, Poll, Registry, EPOLLET, EPOLLIN, EPOLLONESHOT, EPOLL_CTL_ADD};

#[test]
fn flags() {
    assert_eq!(EPOLL_CTL_ADD, 1);
    assert_eq!(EPOLLIN, 1);
    assert_eq!(EPOLLET, 1 << 31);
    assert_eq!(EPOLLONESHOT, 0x4000_0000);
    assert_eq!((EPOLLIN | EPOLLET) as u32, 0x8000_0001);
}

#[test]
fn event_token() {
    let e = Event { events: 1, epoll_data: 42 };
    assert_eq!(e.token(), 42);
    let i = Event::interest(EPOLLIN | EPOLLONESHOT, 7);
    assert_eq!(i.events, 0x4000_0001);
    assert_eq!(i.token(), 7);
}

#[test]
fn poll_from_create_result() {
    assert_eq!(Poll::new(-1).err(), Some(-1));
    let p = Poll::new(5).ok().unwrap();
    assert_eq!(p.registry().raw_fd(), 5);
    let a = p.wait_args(10, None);
    assert_eq!((a.epfd, a.max_events, a.timeout), (5, 10, -1));
    let a = p.wait_args(3, Some(200));
    assert_eq!((a.epfd, a.max_events, a.timeout), (5, 3, 200));
    assert_eq!(Poll::wait_result(4), Ok(4));
    assert_eq!(Poll::wait_result(-4), Err(-4));
}

#[test]
fn register_arguments() {
    let p = Poll::new(9).ok().unwrap();
    let r: &Registry = p.registry();
    let a = r.register(12, 3, EPOLLIN | EPOLLET);
    assert_eq!((a.epfd, a.op, a.fd), (9, EPOLL_CTL_ADD, 12));
    assert_eq!(a.event.events, 0x8000_0001);
    assert_eq!(a.event.epoll_data, 3);
    assert_eq!(Registry::register_result(0), Ok(()));
    assert_eq!(Registry::register_result(-1), Err(-1));
}
