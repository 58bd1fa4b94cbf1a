//! The per-guild generation rule of the filter engine cache: an engine built
//! while its guild's filters were invalidated is not cached.

use vstd::prelude::*;

verus! {

/// A guild's generation after `k` invalidations starting from `g` (the counter
/// wraps around like an atomic counter).
pub open spec fn generation_after(g: u64, k: nat) -> u64 {
    ((g as nat + k) % 0x1_0000_0000_0000_0000) as u64
}

/// The generation of a guild after one invalidation.
pub fn next_generation(g: u64) -> (r: u64)
    ensures
        r == generation_after(g, 1),
{
    g.wrapping_add(1)
}

/// Whether an engine built for a guild may be cached: only when the guild's
/// generation did not move while it was built.
pub fn should_cache_build(generation_before: u64, generation_after_build: u64) -> (r: bool)
    ensures
        r == (generation_before == generation_after_build),
{
    generation_before == generation_after_build
}

/// A build that saw at least one (and fewer than 2^64) invalidations of its
/// guild is never cached.
pub proof fn lemma_invalidated_build_not_cached(g: u64, k: nat)
    requires
        0 < k < 0x1_0000_0000_0000_0000,
    ensures
        generation_after(g, k) != g,
{
    assert(generation_after(g, k) != g) by (nonlinear_arith)
        requires
            0 < k < 0x1_0000_0000_0000_0000,
            g < 0x1_0000_0000_0000_0000,
    ;
}

} // verus!
