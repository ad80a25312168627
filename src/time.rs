//! Frame timing on an explicit clock value.
//!
//! Timestamps are nanoseconds on one monotonic timeline chosen by the caller;
//! the clock never reads the time itself, so callers hand in the current
//! reading and tests can drive it with any values they like.

use vstd::prelude::*;

verus! {

/// The two instants a frame loop needs: when the program started and when the
/// last frame ended.
#[derive(Clone, Copy, Debug, PartialEq, Eq, Structural)]
pub struct Clock {
    pub start_nanos: u64,
    pub last_frame_nanos: u64,
}

/// Time that has passed from `earlier` to `now`, or zero when `now` lies
/// before `earlier`.
pub open spec fn elapsed_between(earlier: u64, now: u64) -> nat {
    if now >= earlier {
        (now - earlier) as nat
    } else {
        0
    }
}

/// Starts a clock at `now_nanos`: the program start and the last frame are both
/// set to that instant.
pub fn startup(now_nanos: u64) -> (clock: Clock)
    ensures
        clock.start_nanos == now_nanos,
        clock.last_frame_nanos == now_nanos,
{
    Clock { start_nanos: now_nanos, last_frame_nanos: now_nanos }
}

/// Marks the end of a frame at `now_nanos`; the program start is kept.
pub fn update(clock: &mut Clock, now_nanos: u64)
    ensures
        final(clock).start_nanos == old(clock).start_nanos,
        final(clock).last_frame_nanos == now_nanos,
{
    clock.last_frame_nanos = now_nanos;
}

/// Time since the program started, in nanoseconds.
pub fn total_elapsed(clock: &Clock, now_nanos: u64) -> (elapsed: u64)
    ensures
        elapsed == elapsed_between(clock.start_nanos, now_nanos),
{
    now_nanos.saturating_sub(clock.start_nanos)
}

/// Time since the last frame ended, in nanoseconds.
pub fn delta_time(clock: &Clock, now_nanos: u64) -> (delta: u64)
    ensures
        delta == elapsed_between(clock.last_frame_nanos, now_nanos),
{
    now_nanos.saturating_sub(clock.last_frame_nanos)
}

} // verus!
