use asyncrt::epoll::Event;
use asyncrt::events::{EventBatch, ReadAction, ReadOutcome};
use std::collections::HashSet;

fn ev(token: usize) -> Event {
    Event { events: 1, epoll_data: token }
}

#[test]
fn each_stream_counted_once() {
    let events = vec![ev(0), ev(1), ev(0)];
    let mut handled = HashSet::new();
    let mut batch = EventBatch::new(&events);
    assert_eq!(batch.current(), Some(0));
    assert_eq!(batch.record(&mut handled, ReadOutcome::Data(10)), ReadAction::ReadAgain);
    assert_eq!(batch.current(), Some(0));
    assert_eq!(batch.record(&mut handled, ReadOutcome::Eof), ReadAction::NextEvent);
    assert_eq!(batch.current(), Some(1));
    assert_eq!(batch.record(&mut handled, ReadOutcome::WouldBlock), ReadAction::NextEvent);
    assert_eq!(batch.current(), Some(0));
    // a spurious end of file for a stream already handled
    assert_eq!(batch.record(&mut handled, ReadOutcome::Eof), ReadAction::NextEvent);
    assert_eq!(batch.current(), None);
    assert_eq!(batch.handled_events(), 1);
    assert!(handled.contains(&0));
    assert!(!handled.contains(&1));
}

#[test]
fn handled_set_spans_batches() {
    let mut handled = HashSet::new();
    let first = vec![ev(2)];
    let mut batch = EventBatch::new(&first);
    batch.record(&mut handled, ReadOutcome::Eof);
    assert_eq!(batch.handled_events(), 1);
    let second = vec![ev(2), ev(3)];
    let mut batch = EventBatch::new(&second);
    batch.record(&mut handled, ReadOutcome::Eof);
    batch.record(&mut handled, ReadOutcome::Interrupted);
    assert_eq!(batch.handled_events(), 0);
    assert_eq!(batch.current(), None);
}

#[test]
fn read_error_fails_batch() {
    let events = vec![ev(4)];
    let mut handled = HashSet::new();
    let mut batch = EventBatch::new(&events);
    assert_eq!(batch.record(&mut handled, ReadOutcome::Failed), ReadAction::Fail);
    assert_eq!(batch.current(), Some(4));
    assert_eq!(batch.handled_events(), 0);
}

#[test]
fn read_to_end_counts_every_read() {
    let events = vec![ev(0), ev(0), ev(1)];
    let mut batch = EventBatch::new(&events);
    assert_eq!(batch.record_to_end(ReadOutcome::Data(5)), ReadAction::NextEvent);
    assert_eq!(batch.record_to_end(ReadOutcome::Eof), ReadAction::NextEvent);
    assert_eq!(batch.record_to_end(ReadOutcome::WouldBlock), ReadAction::NextEvent);
    assert_eq!(batch.handled_events(), 2);
    assert_eq!(batch.current(), None);
    let mut batch = EventBatch::new(&events);
    assert_eq!(batch.record_to_end(ReadOutcome::Failed), ReadAction::Fail);
    assert_eq!(batch.handled_events(), 0);
}

#[test]
fn empty_batch_is_done() {
    let batch = EventBatch::new(&[]);
    assert_eq!(batch.current(), None);
    assert_eq!(batch.handled_events(), 0);
}
