use asyncrt::fibers::{initial_frame, Runtime, State, Thread, DEFAULT_STACK_SIZE, MAX_THREADS};

#[test]
fn new_runtime_has_running_base_thread() {
    let rt = Runtime::new();
    assert_eq!(rt.current(), 0);
    assert_eq!(rt.state(0), State::Running);
    for i in 1..MAX_THREADS {
        assert_eq!(rt.state(i), State::Available);
    }
}

#[test]
fn thread_new_is_available() {
    let t = Thread::new(7);
    assert_eq!(t.id, 7);
    assert_eq!(t.state, State::Available);
    assert_eq!(t.stack.len(), DEFAULT_STACK_SIZE);
    assert!(t.stack.iter().all(|b| *b == 0));
}

#[test]
fn new_runtime_gives_each_thread_a_stack() {
    let mut rt = Runtime::new();
    assert_eq!(DEFAULT_STACK_SIZE, 2 * 1024 * 1024);
    for i in 0..MAX_THREADS {
        let stack = rt.stack_mut(i);
        assert_eq!(stack.len(), DEFAULT_STACK_SIZE);
        assert!(stack.iter().all(|b| *b == 0));
    }
}

#[test]
fn yield_without_ready_thread_keeps_running() {
    let mut rt = Runtime::new();
    assert!(!rt.t_yield());
    assert_eq!(rt.current(), 0);
    assert_eq!(rt.state(0), State::Running);
}

#[test]
fn spawn_takes_first_available_thread() {
    let mut rt = Runtime::new();
    assert_eq!(rt.spawn(), 1);
    assert_eq!(rt.spawn(), 2);
    assert_eq!(rt.state(1), State::Ready);
    assert_eq!(rt.state(2), State::Ready);
    assert_eq!(rt.state(3), State::Available);
}

#[test]
fn yield_round_robin() {
    let mut rt = Runtime::new();
    rt.spawn();
    rt.spawn();
    assert!(rt.t_yield());
    assert_eq!(rt.current(), 1);
    assert_eq!(rt.state(0), State::Ready);
    assert_eq!(rt.state(1), State::Running);
    assert!(rt.t_yield());
    assert_eq!(rt.current(), 2);
    assert_eq!(rt.state(1), State::Ready);
    // wraps around past the available thread 3 back to 0
    assert!(rt.t_yield());
    assert_eq!(rt.current(), 0);
    assert_eq!(rt.state(2), State::Ready);
    assert_eq!(rt.state(0), State::Running);
}

#[test]
fn return_frees_thread_and_switches() {
    let mut rt = Runtime::new();
    rt.spawn();
    assert!(rt.t_yield());
    assert_eq!(rt.current(), 1);
    assert!(rt.t_return());
    assert_eq!(rt.current(), 0);
    assert_eq!(rt.state(1), State::Available);
    assert_eq!(rt.state(0), State::Running);
    // the base thread is never freed
    assert!(!rt.t_return());
    assert_eq!(rt.state(0), State::Running);
}

#[test]
fn freed_thread_is_reused_by_spawn() {
    let mut rt = Runtime::new();
    rt.spawn();
    rt.t_yield();
    rt.t_return();
    assert_eq!(rt.spawn(), 1);
}

#[test]
fn stack_frame_layout() {
    let f = initial_frame(0x1000, 0x2000);
    assert_eq!(f.top, 0x3000);
    assert_eq!(f.guard_slot, 0x3000 - 16);
    assert_eq!(f.skip_slot, 0x3000 - 24);
    assert_eq!(f.entry_slot, 0x3000 - 32);
    assert_eq!(f.stack_pointer, 0x3000 - 32);
    let g = initial_frame(0x1003, 100);
    assert_eq!(g.top, (0x1003 + 100) & !15);
    assert_eq!(g.top % 16, 0);
}
