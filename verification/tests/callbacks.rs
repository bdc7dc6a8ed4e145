use asyncrt::callbacks::{after_poll, spawn, Executor, IdCounter, LoopAction, PollOutcome};
use asyncrt::suspended::Excutor;

#[test]
fn callbacks_resume_by_event() {
    let mut ex: Executor<Box<dyn FnOnce() -> u32>> = Executor::new();
    spawn(&mut ex, 3, Box::new(|| 30));
    ex.spawn(4, Box::new(|| 40));
    let f = ex.resume(4);
    assert_eq!(f(), 40);
    let f = ex.resume(3);
    assert_eq!(f(), 30);
}

#[test]
fn spawn_replaces_callback_under_same_id() {
    let mut ex: Executor<u32> = Executor::new();
    ex.spawn(1, 10);
    ex.spawn(1, 11);
    assert_eq!(ex.resume(1), 11);
}

#[test]
fn ids_count_up_from_one() {
    let mut c = IdCounter::new();
    assert_eq!(c.next_id(), 1);
    assert_eq!(c.next_id(), 2);
    assert_eq!(c.next_id(), 3);
}

#[test]
fn suspended_task_found_by_event_and_kept() {
    let mut ex: Excutor<u32> = Excutor::new();
    ex.suspend(10, 1);
    ex.suspend(11, 2);
    ex.suspend(10, 3);
    {
        let t = ex.resume(10);
        assert_eq!(*t, 1);
        *t += 100;
    }
    assert_eq!(*ex.resume(10), 101);
    assert_eq!(*ex.resume(11), 2);
}

#[test]
fn event_loop_forwards_ready_tokens_in_order() {
    match after_poll(PollOutcome::Ready(vec![5, 2, 9])) {
        LoopAction::Forward(tokens) => assert_eq!(tokens, vec![5, 2, 9]),
        _ => panic!("ready tokens must be forwarded"),
    }
}

#[test]
fn event_loop_stops_on_interrupt_and_fails_on_error() {
    assert!(matches!(after_poll(PollOutcome::Interrupted), LoopAction::Stop));
    assert!(matches!(after_poll(PollOutcome::Failed), LoopAction::Fail));
}
