//! Metric label values chosen by the recording functions.

use vstd::prelude::*;

verus! {

/// The `outcome` label of an attempt: `success` or `failure`.
pub fn outcome_label(success: bool) -> (r: &'static str)
    ensures
        r@ == (if success {
            "success"@
        } else {
            "failure"@
        }),
{
    if success {
        "success"
    } else {
        "failure"
    }
}

/// The change that a connection event makes to an up-down gauge of open
/// connections or sessions: +1 on open, -1 on close.
pub fn gauge_delta(opened: bool) -> (r: i64)
    ensures
        r == (if opened {
            1i64
        } else {
            -1i64
        }),
{
    if opened {
        1
    } else {
        -1
    }
}

/// What a periodic flush of the RTP packet counter does with the count it
/// swapped out: it adds it to the exported counter only when it is positive.
pub fn rtp_flush_amount(swapped: u64) -> (r: Option<u64>)
    ensures
        swapped > 0 ==> r == Some(swapped),
        swapped == 0 ==> r is None,
{
    if swapped > 0 {
        Some(swapped)
    } else {
        None
    }
}

} // verus!
