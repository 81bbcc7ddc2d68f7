//! Stopping background workers: a flag shared with each worker, and the
//! slices in which a worker sleeps so that it notices the flag soon.

use std::sync::Arc;
use std::sync::atomic::AtomicBool;

use vstd::prelude::*;

verus! {

/// A sleeping worker looks at the flag at least every 250 ms.
pub const SHUTDOWN_POLL_NANOS: u128 = 250_000_000;

/// A flag that the owner of a worker raises to ask it to stop.
#[derive(Debug, Clone)]
pub struct ShutdownToken {
    should_stop: Arc<AtomicBool>,
}

impl ShutdownToken {
    /// A token whose flag is down.
    pub fn new() -> (r: Self) {
        ShutdownToken { should_stop: Arc::new(AtomicBool::new(false)) }
    }

    /// Raises the flag.
    pub fn request_shutdown(&self) {
        self.should_stop.store(true, std::sync::atomic::Ordering::Release);
    }

    /// Whether the flag was raised; another thread may raise it at any
    /// moment, so nothing is promised of the answer.
    pub fn should_stop(&self) -> (r: bool) {
        self.should_stop.load(std::sync::atomic::Ordering::Acquire)
    }
}

/// The next nap of a worker that sleeps `duration` and has slept
/// `elapsed` so far: `None` when it is done, else what is left, cut to the
/// polling interval.
pub open spec fn sleep_slice_spec(elapsed: u128, duration: u128) -> Option<u128> {
    if elapsed >= duration {
        None
    } else if duration - elapsed < SHUTDOWN_POLL_NANOS {
        Some((duration - elapsed) as u128)
    } else {
        Some(SHUTDOWN_POLL_NANOS)
    }
}

pub fn sleep_slice(elapsed: u128, duration: u128) -> (r: Option<u128>)
    ensures
        r == sleep_slice_spec(elapsed, duration),
{
    if elapsed >= duration {
        return None;
    }
    let remaining = duration - elapsed;
    if remaining < SHUTDOWN_POLL_NANOS {
        Some(remaining)
    } else {
        Some(SHUTDOWN_POLL_NANOS)
    }
}

/// Every nap is short enough for the flag to be seen within the polling
/// interval, is never empty, and never sleeps past the end.
pub proof fn lemma_sleep_slice(elapsed: u128, duration: u128)
    ensures
        match sleep_slice_spec(elapsed, duration) {
            Some(nap) => 0 < nap <= SHUTDOWN_POLL_NANOS && elapsed + nap <= duration,
            None => elapsed >= duration,
        },
{
}

} // verus!
