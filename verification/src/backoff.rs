//! Reconnect backoff schedule for the server's control channel.
//!
//! Every reconnect attempt waits for the scheduled number of seconds:
//! 1, 2, 5, 10, 30, then 60 for every further attempt.

use vstd::prelude::*;

verus! {

/// The scheduled wait, in seconds, before the reconnect attempt with the
/// given number; the first attempt is number zero.
pub open spec fn reconnect_delay_spec(attempt: int) -> int {
    if attempt <= 0 {
        1
    } else if attempt == 1 {
        2
    } else if attempt == 2 {
        5
    } else if attempt == 3 {
        10
    } else if attempt == 4 {
        30
    } else {
        60
    }
}

/// Seconds to wait before the given reconnect attempt.
pub fn reconnect_delay(attempt: u64) -> (r: u64)
    ensures
        r == reconnect_delay_spec(attempt as int),
{
    if attempt == 0 {
        1
    } else if attempt == 1 {
        2
    } else if attempt == 2 {
        5
    } else if attempt == 3 {
        10
    } else if attempt == 4 {
        30
    } else {
        60
    }
}

/// The backoff schedule starts at 1, 2, 5, 10, 30, 60 seconds and stays
/// capped at 60 seconds for every further attempt.
pub proof fn lemma_backoff_schedule()
    ensures
        reconnect_delay_spec(0) == 1,
        reconnect_delay_spec(1) == 2,
        reconnect_delay_spec(2) == 5,
        reconnect_delay_spec(3) == 10,
        reconnect_delay_spec(4) == 30,
        reconnect_delay_spec(5) == 60,
        forall|n: int| n >= 5 ==> #[trigger] reconnect_delay_spec(n) == 60,
        forall|n: int| 1 <= #[trigger] reconnect_delay_spec(n) <= 60,
        forall|n: int| n >= 0 ==> #[trigger] reconnect_delay_spec(n) <= reconnect_delay_spec(n + 1),
{
}

} // verus!
