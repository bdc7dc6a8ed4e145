use asyncrt::parker::Parker;
use std::sync::atomic::{AtomicBool, AtomicUsize, Ordering};
use std::sync::mpsc::channel;
use std::sync::Arc;
use std::time::Duration;

/// Blocks the calling thread for `ms` milliseconds.
fn pause(ms: u64) {
    let (_keep, rx) = channel::<()>();
    let _ = rx.recv_timeout(Duration::from_millis(ms));
}

/// Runs `f` on a thread of its own.
fn on_other_thread(f: impl FnOnce() + Send + 'static) -> tokio::runtime::Runtime {
    let rt = tokio::runtime::Runtime::new().unwrap();
    rt.spawn_blocking(f);
    rt
}

#[test]
fn parker_works() {
    let flag = Arc::new(AtomicBool::new(false));
    let parker = Arc::new(Parker::default());

    let flag_clone = flag.clone();
    let parker_clone = parker.clone();

    let _rt = on_other_thread(move || {
        pause(200);
        flag_clone.store(true, Ordering::SeqCst);
        parker_clone.unpark();
    });
    assert!(!flag.load(Ordering::SeqCst), "Flag should be false at this point!");
    parker.park();
    assert!(flag.load(Ordering::SeqCst), "Flag should be true at this point!");
}

#[test]
fn unpark_before_park_returns_at_once() {
    let parker = Parker::default();
    parker.unpark();
    parker.park();
}

#[test]
fn park_clears_the_flag_each_time() {
    let count = Arc::new(AtomicUsize::new(0));
    let parker = Arc::new(Parker::default());
    let count_clone = count.clone();
    let parker_clone = parker.clone();
    parker.unpark();
    parker.park();
    let _rt = on_other_thread(move || {
        pause(100);
        count_clone.store(1, Ordering::SeqCst);
        parker_clone.unpark();
    });
    parker.park();
    assert_eq!(count.load(Ordering::SeqCst), 1);
}
