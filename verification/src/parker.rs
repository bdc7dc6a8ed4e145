//! A parker: a thread parks until another unparks it. The flag that says
//! whether the parked thread may resume is kept behind a mutex, and a
//! condition variable wakes the parked thread when the flag changes.
use vstd::prelude::*;
use std::sync::{Condvar, Mutex, MutexGuard};

verus! {

#[verifier::external_type_specification]
#[verifier::external_body]
#[verifier::reject_recursive_types(T)]
pub struct ExMutex<T: ?Sized>(Mutex<T>);

#[verifier::external_type_specification]
#[verifier::external_body]
#[verifier::reject_recursive_types(T)]
pub struct ExMutexGuard<'a, T: ?Sized + 'a>(MutexGuard<'a, T>);

#[verifier::external_type_specification]
#[verifier::external_body]
pub struct ExCondvar(Condvar);

/// Calls `Mutex::new` on the flag. Nothing is stated of the mutex, whose
/// contents Verus does not see.
#[verifier::external_body]
fn new_flag(value: bool) -> (m: Mutex<bool>) {
    Mutex::new(value)
}

/// Calls `Condvar::new`.
#[verifier::external_body]
fn new_condvar() -> (c: Condvar) {
    Condvar::new()
}

/// Calls `Mutex::lock` and unwraps the guard. `lock` blocks until the
/// mutex is free; it fails only if a thread panicked while holding it,
/// which no function here does. Nothing is stated of the flag's value.
#[verifier::external_body]
fn lock_flag(m: &Mutex<bool>) -> (g: MutexGuard<'_, bool>) {
    m.lock().unwrap()
}

/// Calls `Condvar::wait_while`, which releases the lock and sleeps until
/// the flag is set, waking on notifications and re-checking the flag each
/// time, and returns the guard with the lock held again. It does not
/// return while the flag stays clear. Nothing is stated of the flag.
#[verifier::external_body]
fn wait_until_set<'a>(c: &Condvar, g: MutexGuard<'a, bool>) -> (r: MutexGuard<'a, bool>) {
    c.wait_while(g, |resumable| is_clear(resumable)).unwrap()
}

/// Writes the flag through the guard (`DerefMut` of `MutexGuard`).
#[verifier::external_body]
fn write_flag(g: &mut MutexGuard<'_, bool>, value: bool) {
    **g = value;
}

/// Calls `Condvar::notify_one`, waking one thread waiting on it, if any.
#[verifier::external_body]
fn notify(c: &Condvar) {
    c.notify_one();
}

/// The parked thread must keep waiting while the flag is clear.
pub fn is_clear(resumable: &mut bool) -> (clear: bool)
    ensures
        clear == !*old(resumable),
        *final(resumable) == *old(resumable),
{
    !*resumable
}

/// The flag that lets a parked thread resume, and the condition variable
/// that wakes it.
pub struct Parker(Mutex<bool>, Condvar);

impl Default for Parker {
    /// A parker whose flag is clear: parking waits for an unpark.
    fn default() -> (p: Parker) {
        Parker(new_flag(false), new_condvar())
    }
}

impl Parker {
    /// Blocks the calling thread until the flag is set, then clears it, so
    /// that the next park waits again. Returns at once if an unpark came
    /// first.
    pub fn park(&self) {
        let resumable = lock_flag(&self.0);
        let mut resumable = wait_until_set(&self.1, resumable);
        write_flag(&mut resumable, false);
    }

    /// Sets the flag and wakes the parked thread, if there is one.
    pub fn unpark(&self) {
        {
            let mut resumable = lock_flag(&self.0);
            write_flag(&mut resumable, true);
        }
        notify(&self.1);
    }
}

} // verus!
