//! Voice health score: the weights of its components and the jitter limit.

use vstd::prelude::*;

verus! {

/// Jitter (in milliseconds) at which the jitter component of the score is
/// fully lost: the voice latency target.
pub const JITTER_SLA_MS: u32 = 50;

/// Weight of the join success rate.
pub const W_JOIN: u32 = 40;

/// Weight of the packet loss component.
pub const W_LOSS: u32 = 30;

/// Weight of the jitter component.
pub const W_JITTER: u32 = 20;

/// Weight of the crash rate component.
pub const W_CRASH: u32 = 10;

/// The weights of the health score add up to 100, so a perfect session scores
/// 100 and the worst scores 0.
pub proof fn lemma_weights_sum_to_100()
    ensures
        W_JOIN + W_LOSS + W_JITTER + W_CRASH == 100,
{
}

} // verus!
