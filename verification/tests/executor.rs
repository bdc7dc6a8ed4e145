use asyncrt::executor::{spawn, ExecutorCore};

#[test]
fn spawn_hands_out_fresh_ids() {
    let mut ex: ExecutorCore<&str> = ExecutorCore::new();
    let mut queue = Vec::new();
    assert_eq!(spawn(&mut ex, &mut queue, "a"), 0);
    assert_eq!(spawn(&mut ex, &mut queue, "b"), 1);
    assert_eq!(queue, vec![0, 1]);
    assert_eq!(ex.task_count(), 2);
}

#[test]
fn next_task_takes_from_back_and_skips_stale_ids() {
    let mut ex: ExecutorCore<&str> = ExecutorCore::new();
    let mut queue = Vec::new();
    spawn(&mut ex, &mut queue, "a");
    spawn(&mut ex, &mut queue, "b");
    // a wake for a task that does not exist
    queue.push(7);
    assert_eq!(ex.next_task(&mut queue), Some((1, "b")));
    assert_eq!(queue, vec![0]);
    assert_eq!(ex.task_count(), 1);
    // still pending: back in the table, and woken again later
    ex.finish_poll(1, "b'", false);
    assert_eq!(ex.task_count(), 2);
    assert_eq!(ex.next_task(&mut queue), Some((0, "a")));
    ex.finish_poll(0, "a", true);
    assert_eq!(ex.next_task(&mut queue), None);
    assert!(queue.is_empty());
    assert!(ex.should_park());
    assert_eq!(ex.get_future(1), Some("b'"));
    assert!(!ex.should_park());
}

#[test]
fn pop_ready_and_insert() {
    let mut ex: ExecutorCore<u8> = ExecutorCore::new();
    let mut queue = vec![3, 4];
    assert_eq!(ex.pop_ready(&mut queue), Some(4));
    assert_eq!(ex.pop_ready(&mut queue), Some(3));
    assert_eq!(ex.pop_ready(&mut queue), None);
    let mut q = Vec::new();
    spawn(&mut ex, &mut q, 9);
    assert_eq!(ex.get_future(0), Some(9));
    assert_eq!(ex.get_future(0), None);
    ex.insert_task(0, 10);
    assert_eq!(ex.get_future(0), Some(10));
}
