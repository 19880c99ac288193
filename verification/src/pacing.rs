//! Fixed-rate pacing arithmetic.
//!
//! A pull-based capture loop measures how long one capture took and sleeps
//! the remainder of the target frame interval, turning an irregular frame
//! source into a steady cadence. The arithmetic here is what the loop
//! decides with; the measuring and the sleeping happen outside the library.

use vstd::prelude::*;

use crate::errors::SessionError;

verus! {

/// Nanoseconds in one second, the unit the pacing arithmetic works in.
pub const NANOS_PER_SECOND: u64 = 1_000_000_000;

/// How long the loop must sleep after a capture that took `elapsed` out of
/// a target interval of `interval`: the remainder of the interval, or
/// nothing when the capture already overran it.
pub open spec fn paced_sleep(interval: int, elapsed: int) -> int {
    if elapsed >= interval {
        0
    } else {
        interval - elapsed
    }
}

/// How long one loop iteration lasts in all: the capture time plus the
/// sleep that pads it out to the target interval.
pub open spec fn iteration_span(interval: int, elapsed: int) -> int {
    elapsed + paced_sleep(interval, elapsed)
}

/// The instant, counted from the start of the loop, at which iteration
/// `i` begins, when iteration `k` spends `elapsed[k]` on its capture:
/// each iteration begins where the one before it ended.
pub open spec fn iteration_start(interval: int, elapsed: Seq<int>, i: int) -> int
    decreases i,
{
    if i <= 0 {
        0
    } else {
        iteration_start(interval, elapsed, i - 1) + iteration_span(interval, elapsed[i - 1])
    }
}

/// The instant at which the frame of iteration `i` is delivered: its
/// capture completes `elapsed[i]` into the iteration.
pub open spec fn delivery_instant(interval: int, elapsed: Seq<int>, i: int) -> int {
    iteration_start(interval, elapsed, i) + elapsed[i]
}

/// The target frame interval for a requested rate, in nanoseconds. A rate
/// of zero admits no interval, which is why the control surface rejects it
/// before any interval is computed.
pub fn target_interval_ns(fps: u32) -> (r: Result<u64, SessionError>)
    ensures
        fps == 0 ==> r == Err::<u64, SessionError>(SessionError::InvalidFrameRate),
        fps >= 1 ==> r == Ok::<u64, SessionError>((NANOS_PER_SECOND as int / fps as int) as u64),
{
    if fps == 0 {
        Err(SessionError::InvalidFrameRate)
    } else {
        Ok(NANOS_PER_SECOND / (fps as u64))
    }
}

/// The sleep that pads the iteration out to the target interval, in
/// nanoseconds: zero when the capture overran the interval, the remainder
/// otherwise.
pub fn sleep_duration_ns(interval_ns: u64, elapsed_ns: u64) -> (r: u64)
    ensures
        r as int == paced_sleep(interval_ns as int, elapsed_ns as int),
{
    if elapsed_ns >= interval_ns {
        0
    } else {
        interval_ns - elapsed_ns
    }
}

/// Pacing spaces iterations out: however fast a capture completes, the
/// next iteration begins at least one target interval after this one did.
pub proof fn lemma_paced_iterations_spaced(interval: int, elapsed: Seq<int>, i: int)
    requires
        0 <= i,
    ensures
        iteration_start(interval, elapsed, i + 1) - iteration_start(interval, elapsed, i)
            >= interval,
{
}

/// Pacing spaces deliveries out: while captures keep taking the same
/// time, consecutive frames of a paced loop are delivered at least one
/// target interval apart. (With one capture much slower than the next,
/// only the iteration starts keep that spacing: the later, faster
/// delivery moves forward within its iteration.)
pub proof fn lemma_paced_deliveries_spaced(interval: int, elapsed: Seq<int>, i: int)
    requires
        0 <= i,
        elapsed[i + 1] == elapsed[i],
    ensures
        delivery_instant(interval, elapsed, i + 1) - delivery_instant(interval, elapsed, i)
            >= interval,
{
}

} // verus!
