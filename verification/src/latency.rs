//! Round-trip latency measurement: the elapsed time between request receipt
//! and the completion of the first acknowledgment send.

use vstd::prelude::*;

verus! {

/// Milliseconds elapsed between receipt (`t0`) and acknowledgment (`t1`),
/// both given as millisecond readings of a monotonic clock. A reading pair
/// that runs backwards yields zero rather than failing: the reported latency
/// is never negative.
pub fn elapsed_ms(t0: u64, t1: u64) -> (r: u64)
    ensures
        t1 >= t0 ==> r == t1 - t0,
        t1 < t0 ==> r == 0,
        r >= 0,
{
    if t1 >= t0 {
        t1 - t0
    } else {
        0
    }
}

} // verus!
