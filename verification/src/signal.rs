use vstd::prelude::*;
use std::sync::{Condvar, Mutex, MutexGuard};
use std::time::Duration;

verus! {

/// `std::sync::Mutex`, carried as it is.
#[verifier::external_type_specification]
#[verifier::external_body]
#[verifier::reject_recursive_types(T)]
pub struct ExMutex<T: ?Sized>(Mutex<T>);

/// `std::sync::MutexGuard`, carried as it is.
#[verifier::external_type_specification]
#[verifier::external_body]
#[verifier::reject_recursive_types(T)]
pub struct ExMutexGuard<'a, T: ?Sized + 'a>(MutexGuard<'a, T>);

/// `std::sync::Condvar`, carried as it is.
#[verifier::external_type_specification]
#[verifier::external_body]
pub struct ExCondvar(Condvar);

/// `Mutex::new` on the unit value.
#[verifier::external_body]
fn new_mutex() -> (m: Mutex<()>) {
    Mutex::new(())
}

/// `Condvar::new`.
#[verifier::external_body]
fn new_condvar() -> (c: Condvar) {
    Condvar::new()
}

/// `Condvar::notify_all`: wakes every thread waiting on `c`.
#[verifier::external_body]
fn notify_all(c: &Condvar) {
    c.notify_all()
}

/// `Mutex::lock`. The mutex guards nothing that a panic could leave
/// half-written, so the lock is taken even from a poisoned mutex.
#[verifier::external_body]
fn lock<'a>(m: &'a Mutex<()>) -> (g: MutexGuard<'a, ()>) {
    match m.lock() {
        Ok(g) => g,
        Err(e) => e.into_inner(),
    }
}

/// `Condvar::wait_timeout`: releases the guard and sleeps until notified or
/// until `timeout` has passed (or spuriously); the outcome is dropped.
#[verifier::external_body]
fn wait_timeout<'a>(c: &Condvar, g: MutexGuard<'a, ()>, timeout: Duration) {
    let _ = c.wait_timeout(g, timeout);
}

/// Wakes the consumer of a ring buffer when data arrives, and lets the
/// producer wait (with a timeout) for room: the two sides of an audio
/// stream signal each other through it.
pub struct BufferSignal {
    pub mutex: Mutex<()>,
    pub condvar: Condvar,
}

impl BufferSignal {
    pub fn new() -> (s: Self) {
        BufferSignal { mutex: new_mutex(), condvar: new_condvar() }
    }

    /// Wakes every waiting side.
    pub fn notify(&self) {
        notify_all(&self.condvar);
    }

    /// Waits until notified, or at most `timeout`.
    pub fn wait_timeout(&self, timeout: Duration) {
        let guard = lock(&self.mutex);
        wait_timeout(&self.condvar, guard, timeout);
    }
}

} // verus!
