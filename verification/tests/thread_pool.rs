use asyncrt::thread_pool::{claim_result, get_available};
use std::sync::atomic::{AtomicBool, Ordering};
use std::sync::Arc;

#[test]
fn claims_first_idle_worker() {
    let flags = vec![
        Arc::new(AtomicBool::new(false)),
        Arc::new(AtomicBool::new(true)),
        Arc::new(AtomicBool::new(true)),
    ];
    assert_eq!(get_available(&flags), Some(1));
    assert!(!flags[1].load(Ordering::Acquire));
    assert_eq!(get_available(&flags), Some(2));
    assert_eq!(get_available(&flags), None);
}

#[test]
fn claim_result_per_exchange() {
    assert_eq!(claim_result(3, Ok(true)), Some(3));
    assert_eq!(claim_result(3, Err(false)), None);
    assert_eq!(claim_result(3, Ok(false)), None);
    assert_eq!(get_available(&Vec::new()), None);
}
