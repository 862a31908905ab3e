//! The delay between two unsuccessful passes over the candidate hosts.

use vstd::prelude::*;

verus! {

/// The delay, in seconds, that every episode of selection starts with.
pub const INITIAL_BACKOFF: u64 = 1;

/// The delay that follows `current` under the cap `max`: twice `current`,
/// or `max` where that would be longer.
pub open spec fn doubled(current: int, max: int) -> int {
    if 2 * current <= max {
        2 * current
    } else {
        max
    }
}

/// Doubles a delay without ever passing the cap.
pub fn next_backoff(current: u64, max: u64) -> (next: u64)
    ensures
        next == doubled(current as int, max as int),
{
    if current <= max / 2 {
        current * 2
    } else {
        max
    }
}

/// A delay within the cap never gets shorter by doubling, and stays within
/// the cap.
pub proof fn lemma_doubled_grows(current: int, max: int)
    requires
        0 <= current <= max,
    ensures
        current <= doubled(current, max) <= max,
{
}

} // verus!
