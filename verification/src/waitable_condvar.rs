//! The wake signal shared between the index and its background workers.
//!
//! The signal is a broadcast notification paired with a bounded wait: a
//! worker that waits on it is woken either by a broadcast or by the timeout
//! elapsing, so a lost broadcast can never leave a worker asleep forever.
//! Two further rules close the classic lost-wakeup windows. A broadcast sent
//! while nobody is waiting is latched and consumed by the next wait, which
//! then returns at once. And the wait reads the shutdown flag under the
//! signal's own lock before sleeping, so a wait that begins after shutdown
//! was requested returns immediately instead of sleeping out the timeout.

use vstd::prelude::*;
use core::sync::atomic::AtomicBool;
use core::sync::atomic::Ordering;
use core::time::Duration;

verus! {

#[verifier::external_type_specification]
#[verifier::external_body]
#[verifier::reject_recursive_types(T)]
pub struct ExMutex<T: ?Sized>(std::sync::Mutex<T>);

#[verifier::external_type_specification]
#[verifier::external_body]
pub struct ExCondvar(std::sync::Condvar);

/// A broadcast wake signal with a bounded, shutdown-aware wait. The lock
/// guards the pending-broadcast latch.
pub struct WaitableCondvar {
    pending: std::sync::Mutex<bool>,
    cv: std::sync::Condvar,
}

impl WaitableCondvar {
    /// Relies on `std::sync::Mutex::new` and `std::sync::Condvar::new`: a
    /// fresh signal with no waiter and no pending broadcast.
    #[verifier::external_body]
    pub(crate) fn new() -> (r: WaitableCondvar) {
        WaitableCondvar { pending: std::sync::Mutex::new(false), cv: std::sync::Condvar::new() }
    }

    /// Relies on `std::sync::Condvar::wait_timeout`, entered under
    /// `std::sync::Mutex::lock`: blocks until the signal is broadcast or
    /// `timeout_ms` milliseconds elapse, whichever comes first, and reports
    /// whether the timeout elapsed. Under the lock, before sleeping, two
    /// checks run in order: when `exit` is already set the wait returns at
    /// once (a shutdown broadcast can never be missed), and a pending
    /// broadcast is consumed and satisfies the wait at once. A condition
    /// variable may also wake spuriously, so nothing is promised about the
    /// result.
    #[verifier::external_body]
    pub(crate) fn wait_timeout_or(&self, timeout_ms: u64, exit: &AtomicBool) -> (timed_out: bool) {
        let mut guard = self.pending.lock().unwrap_or_else(|e| e.into_inner());
        if exit.load(Ordering::Relaxed) {
            return false;
        }
        if *guard {
            *guard = false;
            return false;
        }
        match self.cv.wait_timeout(guard, Duration::from_millis(timeout_ms)) {
            Ok((mut g, r)) => { *g = false; r.timed_out() },
            Err(_) => false,
        }
    }

    /// Relies on `std::sync::Condvar::notify_all`, sent under
    /// `std::sync::Mutex::lock`: wakes every worker currently waiting on the
    /// signal, and latches the broadcast so that the next wait, if none was
    /// in progress, returns at once. Holding the lock orders the broadcast
    /// with any wait that is about to begin, so a worker is woken either here
    /// or by its own entry checks.
    #[verifier::external_body]
    pub fn notify_all(&self) {
        let mut guard = self.pending.lock().unwrap_or_else(|e| e.into_inner());
        *guard = true;
        self.cv.notify_all();
    }
}

} // verus!
