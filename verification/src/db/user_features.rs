//! User-level feature flags for premium features.
//!
//! Stored in the `users.feature_flags` BIGINT column. Only bits 0-62 are used
//! for flags, so the value matches PostgreSQL's signed BIGINT directly.

use vstd::prelude::*;

verus! {

/// Bit of [`UserFeatures::PREMIUM_VIDEO`].
pub const PREMIUM_VIDEO_BIT: i64 = 1;

/// Mask of every defined feature bit.
pub const ALL_FEATURE_BITS: i64 = 1;

/// User-level feature flags; the view is the bit pattern, which holds only
/// defined flags.
#[derive(Debug, Clone, Copy, PartialEq, Eq, Hash, Structural)]
pub struct UserFeatures {
    bits: i64,
}

impl View for UserFeatures {
    type V = i64;

    closed spec fn view(&self) -> i64 {
        self.bits
    }
}

impl UserFeatures {
    #[verifier::type_invariant]
    spec fn only_known_bits(self) -> bool {
        self.bits == 0 || self.bits == 1
    }

    /// Premium video quality (1080p60) for screen sharing; users without it
    /// are limited to 720p30.
    #[allow(non_snake_case)]
    pub fn PREMIUM_VIDEO() -> (r: Self)
        ensures
            r@ == PREMIUM_VIDEO_BIT,
    {
        UserFeatures { bits: 1 }
    }

    /// No feature flag.
    pub fn empty() -> (r: Self)
        ensures
            r@ == 0,
    {
        UserFeatures { bits: 0 }
    }

    /// Every defined feature flag.
    pub fn all() -> (r: Self)
        ensures
            r@ == ALL_FEATURE_BITS,
    {
        UserFeatures { bits: 1 }
    }

    /// Keeps the defined bits of `bits`.
    pub fn from_bits_truncate(bits: i64) -> (r: Self)
        ensures
            r@ == bits & ALL_FEATURE_BITS,
    {
        let b = bits & 1;
        proof {
            assert(b == 0 || b == 1) by (bit_vector)
                requires b == bits & 1i64;
        }
        UserFeatures { bits: b }
    }

    /// Create features from a database BIGINT value.
    ///
    /// Unknown bits are dropped to stay forward compatible.
    pub fn from_db(value: i64) -> (r: Self)
        ensures
            r@ == value & ALL_FEATURE_BITS,
    {
        Self::from_bits_truncate(value)
    }

    /// Convert features to a database BIGINT value.
    pub fn to_db(self) -> (r: i64)
        ensures
            r == self@,
            r == 0 || r == 1,
    {
        proof {
            use_type_invariant(&self);
        }
        self.bits
    }

    /// The raw bit pattern.
    pub fn bits(&self) -> (r: i64)
        ensures
            r == self@,
            r == 0 || r == 1,
    {
        proof {
            use_type_invariant(self);
        }
        self.bits
    }

    /// True when no flag is set.
    pub fn is_empty(&self) -> (r: bool)
        ensures
            r == (self@ == 0),
    {
        self.bits == 0
    }

    /// True when every bit of `other` is set in `self`.
    pub fn contains(&self, other: Self) -> (r: bool)
        ensures
            r == (self@ & other@ == other@),
    {
        self.bits & other.bits == other.bits
    }

    /// Check if the user has the premium video feature (1080p60 screen sharing).
    pub fn has_premium_video(&self) -> (r: bool)
        ensures
            r == (self@ & PREMIUM_VIDEO_BIT == PREMIUM_VIDEO_BIT),
    {
        self.contains(Self::PREMIUM_VIDEO())
    }
}

impl Default for UserFeatures {
    fn default() -> (r: Self)
        ensures
            r@ == 0,
    {
        Self::empty()
    }
}

/// Storing a feature set and loading it back gives the same set.
pub proof fn lemma_db_roundtrip(bits: i64)
    requires
        bits == 0 || bits == 1,
    ensures
        bits & ALL_FEATURE_BITS == bits,
{
    assert((bits == 0 || bits == 1) ==> bits & 1i64 == bits) by (bit_vector);
}

} // verus!
