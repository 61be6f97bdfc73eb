//! Conversions between server ticks and player milliseconds.
//!
//! The server measures positions and durations in ticks of 100 nanoseconds;
//! one second is 10,000,000 ticks. The player reports its clock in seconds,
//! which the surrounding process hands to this crate as whole milliseconds.
//! Conversions round toward zero.

use vstd::prelude::*;

verus! {

/// Ticks in one second: one tick is 100 nanoseconds.
pub const TICKS_PER_SECOND: i64 = 10_000_000;

/// Ticks in one millisecond.
pub const TICKS_PER_MILLI: i64 = 10_000;

/// Convert a position in milliseconds to server ticks. Exact.
pub fn millis_to_ticks(millis: i64) -> (ticks: i64)
    requires
        0 <= millis <= 0x7fff_ffff_ffff,
    ensures
        ticks == millis * TICKS_PER_MILLI,
{
    millis * TICKS_PER_MILLI
}

/// Convert server ticks to a position in milliseconds, rounding toward zero.
pub fn ticks_to_millis(ticks: i64) -> (millis: i64)
    requires
        ticks >= 0,
    ensures
        millis == ticks / TICKS_PER_MILLI,
{
    ticks / TICKS_PER_MILLI
}

/// A position survives the trip into ticks and back unchanged.
pub proof fn lemma_millis_ticks_round_trip(millis: i64)
    requires
        0 <= millis <= 0x7fff_ffff_ffff,
    ensures
        (millis * TICKS_PER_MILLI) / (TICKS_PER_MILLI as int) == millis,
{
    let t = millis * (TICKS_PER_MILLI as int);
    assert(t / (TICKS_PER_MILLI as int) == millis) by (nonlinear_arith)
        requires
            t == millis * (TICKS_PER_MILLI as int),
            0 <= millis,
    ;
}

/// A tick count survives the trip into milliseconds and back to within
/// one millisecond's worth of ticks; the error rounds toward zero.
pub proof fn lemma_ticks_millis_round_trip(ticks: i64)
    requires
        ticks >= 0,
    ensures
        0 <= ticks - ((ticks as int) / (TICKS_PER_MILLI as int)) * TICKS_PER_MILLI
            < TICKS_PER_MILLI,
{
    let q = (ticks as int) / (TICKS_PER_MILLI as int);
    assert(0 <= ticks - q * (TICKS_PER_MILLI as int) < TICKS_PER_MILLI as int)
        by (nonlinear_arith)
        requires
            q == (ticks as int) / (TICKS_PER_MILLI as int),
            ticks >= 0,
    ;
}

} // verus!
