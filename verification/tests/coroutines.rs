use asyncrt::coroutine::{Next, Phase, Step};
use asyncrt::leaf_future::{LeafFuture, NonLeafFuture, NonLeafPoll, StreamRead};
use asyncrt::future::PollState;
use asyncrt::{pinned_coroutine, request_coroutine, self_ref, self_ref_pick, sequential_coroutine};

fn awaited(step: &Step) -> String {
    match &step.next {
        Next::Await(p) => p.clone(),
        Next::Done(_) => panic!("expected an await"),
    }
}

fn output(step: &Step) -> String {
    match &step.next {
        Next::Await(_) => panic!("expected the end"),
        Next::Done(o) => o.clone(),
    }
}

#[test]
fn pinned_coroutine_collects_buffer() {
    let mut c = pinned_coroutine::async_main();
    assert_eq!(c.phase(), Phase::Start);
    let s = c.start();
    assert_eq!(s.printed, vec!["Program starting".to_string()]);
    assert_eq!(awaited(&s), "/600/HelloAsyncAwait");
    assert_eq!(c.phase(), Phase::Waiting);
    let s = c.resume("first".to_string());
    assert!(s.printed.is_empty());
    assert_eq!(awaited(&s), "/400/HelloAsyncAwait");
    let s = c.resume("second".to_string());
    assert_eq!(s.printed, vec!["\nBUFFER:\n----\nfirst\nsecond\n".to_string()]);
    assert_eq!(output(&s), "");
    assert_eq!(c.phase(), Phase::Resolved);
}

#[test]
fn sequential_coroutine_awaits_five_requests() {
    let mut c = sequential_coroutine::async_main();
    let s = c.start();
    assert_eq!(s.printed, vec!["Program starting".to_string()]);
    assert_eq!(awaited(&s), "/0/HelloWorld0");
    for k in 1..5 {
        let s = c.resume(format!("reply {k}"));
        assert_eq!(s.printed, vec![format!("reply {k}")]);
        assert_eq!(awaited(&s), format!("/{}/HelloWorld{k}", k * 1000));
    }
    let s = c.resume("last".to_string());
    assert!(s.printed.is_empty());
    assert_eq!(output(&s), "");
    assert_eq!(c.phase(), Phase::Resolved);
}

#[test]
fn request_coroutine_prints_response() {
    let mut c = request_coroutine::request(2);
    assert_eq!(c.phase(), Phase::Start);
    let s = c.start();
    assert!(s.printed.is_empty());
    assert_eq!(awaited(&s), "/2000/HelloWorld2");
    let s = c.resume("hello".to_string());
    assert_eq!(s.printed, vec!["hello".to_string()]);
    assert_eq!(output(&s), "");
    assert_eq!(c.phase(), Phase::Resolved);
}

#[test]
fn main_coroutine_joins_five_requests() {
    let mut c = request_coroutine::async_main();
    let s = c.start();
    assert_eq!(s.printed, vec!["Program starting".to_string()]);
    assert_eq!(s.requests, vec![0, 1, 2, 3, 4]);
    assert_eq!(c.phase(), Phase::Waiting);
    let s = c.resume();
    assert!(s.printed.is_empty());
    assert_eq!(output(&s), "");
    assert_eq!(c.phase(), Phase::Resolved);
}

#[test]
fn leaf_future_resolves_on_complete_read() {
    let mut leaf = LeafFuture::Step1;
    assert!(matches!(leaf.poll(StreamRead::WouldBlock), PollState::NotReady));
    assert_eq!(leaf, LeafFuture::Step1);
    match leaf.poll(StreamRead::Complete("body".to_string())) {
        PollState::Ready(s) => assert_eq!(s, "body"),
        PollState::NotReady => panic!("should be ready"),
    }
    assert_eq!(leaf, LeafFuture::Resolved);
}

#[test]
fn non_leaf_future_sends_then_waits() {
    let mut f = NonLeafFuture::new();
    match f.poll(None) {
        NonLeafPoll::Send(req) => assert_eq!(
            req,
            "GET /1000/helloworld HTTP/1.1\r\nHost: localhost\r\nConnection: close\r\n\r\n"
        ),
        _ => panic!("first poll sends the request"),
    }
    assert!(matches!(f.poll(Some(StreamRead::WouldBlock)), NonLeafPoll::NotReady));
    match f.poll(Some(StreamRead::Complete("txt".to_string()))) {
        NonLeafPoll::Ready(t) => assert_eq!(t, "txt"),
        _ => panic!("should be ready"),
    }
    assert_eq!(f, NonLeafFuture::Resolved);
}

#[test]
fn self_ref_prints_numbers() {
    let mut c = self_ref::SelfRef::new();
    let mut printed = Vec::new();
    assert!(!c.poll(&mut printed));
    assert_eq!(printed, vec!["Future 0".to_string()]);
    assert!(c.poll(&mut printed));
    assert_eq!(printed.len(), 10);
    assert_eq!(printed[1], "Hello #1");
    assert_eq!(printed[9], "Hello #9");
}

#[test]
fn self_ref_pick_and_show() {
    let mut s = self_ref_pick::SelfRef::new();
    s.pick(0);
    assert_eq!(s.show(), 1);
    s.pick(2);
    assert_eq!(s.show(), 3);
}
