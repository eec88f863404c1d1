//! The frame pacer's arithmetic: a fixed budget per tick, and how long to
//! sleep after a tick's work to keep to it.
use vstd::prelude::*;

verus! {

/// Target number of ticks per second.
pub const FPS: u32 = 60;

/// Milliseconds each tick may take: 1000 divided by `FPS`, rounded down, so
/// the loop runs slightly faster than `FPS` on average.
pub const FRAME_DELAY: u32 = 1000 / FPS;

/// Milliseconds from `start` to `now` on a counter that wraps around at
/// 2^32.
pub fn elapsed_ticks(start: u32, now: u32) -> (r: u32)
    ensures
        r == (now - start) % 0x1_0000_0000,
        start <= now ==> r == now - start,
{
    if start <= now {
        now - start
    } else {
        (u32::MAX - start) + now + 1
    }
}

/// How long to sleep after a tick that took `elapsed` of a `budget`: the
/// time left, or nothing when the tick ran to or past the budget.
pub fn sleep_duration(budget: u32, elapsed: u32) -> (r: u32)
    ensures
        r == sleep_duration_of(budget as int, elapsed as int),
        elapsed <= budget ==> r == budget - elapsed,
        elapsed >= budget ==> r == 0,
        r <= budget,
{
    if elapsed < budget {
        budget - elapsed
    } else {
        0
    }
}

/// How long to sleep after a tick that started at `start` and ended at
/// `now` to keep to `FRAME_DELAY`.
pub fn frame_sleep(start: u32, now: u32) -> (r: u32)
    ensures
        r == sleep_duration_of(FRAME_DELAY as int, (now - start) % 0x1_0000_0000),
{
    sleep_duration(FRAME_DELAY, elapsed_ticks(start, now))
}

/// The time left of `budget` after `elapsed`, never below zero.
pub open spec fn sleep_duration_of(budget: int, elapsed: int) -> int {
    if elapsed < budget {
        budget - elapsed
    } else {
        0
    }
}

} // verus!
