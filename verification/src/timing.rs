//! Tick arithmetic: turning monotonic-counter samples and accounting ticks
//! into millisecond durations.
//!
//! Two clocks are involved.  Wall time comes from the platform's monotonic
//! counter, whose tick frequency is queried at run time and is never assumed
//! to be one tick per second.  CPU accounting comes from the platform's fixed
//! accounting clock, which ticks every hundred nanoseconds.

use vstd::prelude::*;

verus! {

/// Accounting ticks (hundred-nanosecond units) in one millisecond.
pub const ACCOUNTING_TICKS_PER_MS: u64 = 10_000;

/// Milliseconds between two monotonic samples taken at `freq` ticks per
/// second, in start-then-end call order; a reversed pair counts as zero and a
/// result beyond the representable range saturates.
pub open spec fn spec_wall_millis(t0: u64, t1: u64, freq: u64) -> int
    recommends
        freq >= 1,
{
    let d: int = if t1 >= t0 {
        t1 - t0
    } else {
        0
    };
    let m: int = (d * 1000) / (freq as int);
    if m > u64::MAX {
        u64::MAX as int
    } else {
        m
    }
}

/// Milliseconds elapsed between the samples `t0` (taken at resume) and `t1`
/// (taken once the group was empty), at `freq` counter ticks per second.
pub fn wall_millis(t0: u64, t1: u64, freq: u64) -> (r: u64)
    requires
        freq >= 1,
    ensures
        r == spec_wall_millis(t0, t1, freq),
{
    let d: u64 = if t1 >= t0 {
        t1 - t0
    } else {
        0
    };
    let scaled: u128 = (d as u128) * 1000;
    let m: u128 = scaled / (freq as u128);
    if m > u64::MAX as u128 {
        u64::MAX
    } else {
        m as u64
    }
}

/// Milliseconds in a count of hundred-nanosecond accounting ticks, rounded
/// down.
pub fn accounting_millis(ticks: u64) -> (r: u64)
    ensures
        r == ticks / ACCOUNTING_TICKS_PER_MS,
{
    ticks / ACCOUNTING_TICKS_PER_MS
}

} // verus!
