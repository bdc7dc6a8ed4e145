use asyncrt::future::{join_all, Future, JoinAll, PollState, Waker};

/// Ready after a given number of polls; counts its polls.
struct Countdown {
    left: usize,
    polls: usize,
}

impl Future for Countdown {
    type Output = usize;

    fn poll(&mut self, _waker: &Waker) -> PollState<usize> {
        self.polls += 1;
        if self.left == 0 {
            PollState::Ready(self.polls)
        } else {
            self.left -= 1;
            PollState::NotReady
        }
    }
}

fn is_ready(p: &PollState<String>) -> bool {
    matches!(p, PollState::Ready(_))
}

#[test]
fn join_all_ready_when_all_are() {
    let waker = Waker::new(1);
    assert_eq!(waker.task_id(), 1);
    let futures = vec![
        Countdown { left: 0, polls: 0 },
        Countdown { left: 2, polls: 0 },
        Countdown { left: 1, polls: 0 },
    ];
    let mut joined: JoinAll<Countdown> = join_all(futures);
    assert!(!is_ready(&joined.poll(&waker)));
    assert!(!is_ready(&joined.poll(&waker)));
    match joined.poll(&waker) {
        PollState::Ready(s) => assert_eq!(s, ""),
        PollState::NotReady => panic!("join should be ready"),
    }
    // once every future is finished, polling again is ready and polls nothing
    assert!(is_ready(&joined.poll(&waker)));
}

/// Panics when polled after it was ready.
struct Once {
    done: bool,
}

impl Future for Once {
    type Output = ();

    fn poll(&mut self, _waker: &Waker) -> PollState<()> {
        assert!(!self.done, "polled a finished future");
        self.done = true;
        PollState::Ready(())
    }
}

#[test]
fn finished_futures_are_not_polled_again() {
    let waker = Waker::new(0);
    let mut joined = join_all(vec![Once { done: false }, Once { done: false }]);
    assert!(is_ready(&joined.poll(&waker)));
    assert!(is_ready(&joined.poll(&waker)));
}

#[test]
fn join_of_nothing_is_ready() {
    let waker = Waker::new(0);
    let mut joined = join_all(Vec::<Once>::new());
    assert!(is_ready(&joined.poll(&waker)));
}
