//! Busy-polling delay primitive.
//!
//! The serial protocol in [`crate::hx711`] needs a minimum width for every
//! clock pulse (a few microseconds).  Operating-system sleeps have far too
//! coarse and non-deterministic a resolution for that, so the driver waits by
//! continuously re-sampling a wall clock until the requested time has passed,
//! never yielding the core.

use vstd::prelude::*;

verus! {

/// Relies on std::time::SystemTime::now (with duration_since and as_nanos
/// converting its result): nanoseconds elapsed since the Unix epoch.  A clock
/// set before the epoch reads as zero.  Nothing is assumed of the value.
#[verifier::external_body]
fn now_nanos() -> u128 {
    match std::time::SystemTime::now().duration_since(std::time::UNIX_EPOCH) {
        Ok(d) => d.as_nanos(),
        Err(_) => 0,
    }
}

/// Busy-wait until at least `min_nanos` nanoseconds have elapsed, re-sampling
/// the clock in a tight loop.  The wait never yields or suspends, so the
/// pulse width is kept even under a coarse scheduler.  (The loop also stops
/// after an astronomically large number of clock samples, so that it provably
/// terminates even on a clock that never advances.)
pub fn spin_wait(min_nanos: u64) {
    let start = now_nanos();
    let mut fuel: u64 = 0;
    while fuel < u64::MAX
        decreases u64::MAX - fuel,
    {
        let now = now_nanos();
        let elapsed: u128 = if now >= start {
            now - start
        } else {
            0
        };
        if elapsed > min_nanos as u128 {
            break;
        }
        fuel = fuel + 1;
    }
}

} // verus!
