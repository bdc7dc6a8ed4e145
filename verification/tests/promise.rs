use asyncrt::promise::{Promise, Retry};
use std::cell::Cell;
use std::rc::Rc;

/// Pending until retried `left` times.
struct Later {
    left: Rc<Cell<u32>>,
    value: u32,
}

impl Retry<u32> for Later {
    fn retry(&self) -> Promise<u32, Later> {
        if self.left.get() == 0 {
            Promise::Fulfilled(self.value)
        } else {
            self.left.set(self.left.get() - 1);
            Promise::Pending(Later { left: self.left.clone(), value: self.value })
        }
    }
}

fn value(p: Promise<u32, Later>) -> Option<u32> {
    match p {
        Promise::Fulfilled(v) => Some(v),
        Promise::Pending(_) => None,
    }
}

#[test]
fn then_on_fulfilled_applies_callback() {
    let p: Promise<u32, Later> = Promise::Fulfilled(2);
    let q = p.then(|v| Promise::Fulfilled(v * 10));
    assert_eq!(value(q), Some(20));
}

#[test]
fn then_on_pending_retries() {
    let left = Rc::new(Cell::new(1));
    let p = Promise::Pending(Later { left: left.clone(), value: 7 });
    let q = p.then(|v| Promise::Fulfilled(v + 1));
    assert_eq!(value(q), None);
    assert_eq!(left.get(), 0);
    let p = Promise::Pending(Later { left: left.clone(), value: 7 });
    let q = p.then(|v| Promise::Fulfilled(v + 1));
    assert_eq!(value(q), Some(7));
}
