//! Time-stamped byte counts, and how one is taken from a shared counter.

use std::sync::atomic::AtomicUsize;
use std::sync::atomic::Ordering;
use std::time::Duration;
use std::time::Instant;
use vstd::prelude::*;

verus! {

/// `std::time::Instant`, a reading of the monotonic clock. Nothing of what it
/// holds is visible here.
#[verifier::external_type_specification]
#[verifier::external_body]
pub struct ExInstant(std::time::Instant);

/// `Instant::elapsed`: the time that has passed since the instant was taken.
/// It depends on the clock, so nothing is claimed of it.
pub assume_specification[ Instant::elapsed ](instant: &Instant) -> Duration;

/// `Duration::as_nanos`: the whole duration in nanoseconds. A `Duration` is
/// opaque here, so nothing is claimed of the number.
pub assume_specification[ Duration::as_nanos ](duration: &Duration) -> u128;

/// The bytes moved since the previous sample, with the instant at which the
/// count was taken. The instant is a reading of a monotonic clock, in
/// nanoseconds after an origin that the caller fixes once.
#[derive(Clone, Copy, Debug, PartialEq, Eq, Structural)]
pub struct Sample {
    pub time: u64,
    pub bytes: usize,
}

impl Sample {
    /// The sample of `bytes` bytes taken `elapsed` nanoseconds after the
    /// origin. An instant too late for the clock's range is held to its end.
    pub fn from_reading(elapsed: u128, bytes: usize) -> (sample: Sample)
        ensures
            sample.time == if elapsed > u64::MAX {
                u64::MAX as int
            } else {
                elapsed as int
            },
            sample.bytes == bytes,
    {
        let time: u64 = if elapsed > u64::MAX as u128 {
            u64::MAX
        } else {
            elapsed as u64
        };
        Sample { time, bytes }
    }

    /// Takes a sample now: reads the counter and sets it back to zero in one
    /// step, and stamps the count with the time since `origin`. Both values
    /// come from outside, the count from whoever adds to the counter and the
    /// time from the clock, so the contract says nothing of them.
    pub fn now_from(bytes: &AtomicUsize, origin: &Instant) -> (sample: Sample) {
        let elapsed = origin.elapsed().as_nanos();
        let count = bytes.swap(0, Ordering::Relaxed);
        Sample::from_reading(elapsed, count)
    }
}

} // verus!
