//! Bounds that every native telemetry query enforces, and ILIKE escaping.

use vstd::prelude::*;

use crate::text::{chars_of, push_char};

verus! {

/// Max page size of telemetry queries.
pub const MAX_PAGE_SIZE: i64 = 100;

/// Max time range of telemetry queries, in days.
pub const MAX_TIME_RANGE_DAYS: i64 = 30;

/// Max rows for live trend queries (one per minute over 24h).
pub const MAX_TREND_ROWS: i64 = 1440;

/// Milliseconds in a day.
pub const MILLIS_PER_DAY: i64 = 86_400_000;

/// The longest allowed time range, in milliseconds.
pub const MAX_TIME_RANGE_MILLIS: i64 = 2_592_000_000;

/// A requested page size, capped at [`MAX_PAGE_SIZE`].
pub fn cap_page_size(limit: i64) -> (r: i64)
    ensures
        r == if limit < MAX_PAGE_SIZE {
            limit
        } else {
            MAX_PAGE_SIZE
        },
{
    if limit < MAX_PAGE_SIZE {
        limit
    } else {
        MAX_PAGE_SIZE
    }
}

/// Clamp the `from` timestamp (milliseconds) so that the range up to `to`
/// does not exceed 30 days.
pub fn clamp_from_time(from: i64, to: i64) -> (r: i64)
    requires
        to >= i64::MIN + MAX_TIME_RANGE_MILLIS,
    ensures
        r == if from < to - MAX_TIME_RANGE_MILLIS {
            to - MAX_TIME_RANGE_MILLIS
        } else {
            from as int
        },
        r >= to - MAX_TIME_RANGE_MILLIS,
{
    let max_from = to - MAX_TIME_RANGE_MILLIS;
    if from < max_from {
        max_from
    } else {
        from
    }
}

/// The text with `\`, `%` and `_` each preceded by a backslash, so that it
/// matches literally inside an ILIKE pattern.
pub open spec fn ilike_escaped(s: Seq<char>) -> Seq<char>
    decreases s.len(),
{
    if s.len() == 0 {
        Seq::empty()
    } else {
        let prev = ilike_escaped(s.drop_last());
        let c = s.last();
        if c == '\\' || c == '%' || c == '_' {
            prev.push('\\').push(c)
        } else {
            prev.push(c)
        }
    }
}

/// Escape ILIKE pattern metacharacters (`%` and `_`, and the escape character
/// `\` itself) in user-supplied search text.
pub fn escape_ilike_pattern(input: &str) -> (r: String)
    ensures
        r@ == ilike_escaped(input@),
{
    let cs = chars_of(input);
    let mut out = String::new();
    let mut i: usize = 0;
    assert(cs@.take(0) =~= Seq::<char>::empty());
    while i < cs.len()
        invariant
            i <= cs@.len(),
            cs@ == input@,
            out@ == ilike_escaped(cs@.take(i as int)),
        decreases cs@.len() - i,
    {
        assert(cs@.take(i + 1).drop_last() =~= cs@.take(i as int));
        let c = cs[i];
        if c == '\\' || c == '%' || c == '_' {
            push_char(&mut out, '\\');
        }
        push_char(&mut out, c);
        i += 1;
    }
    assert(cs@.take(cs@.len() as int) =~= cs@);
    out
}

/// Where a trend query reads from.
#[derive(Debug, Clone, Copy, PartialEq, Eq, Structural)]
pub enum TrendSource {
    /// The raw samples, for ranges of at most one whole day.
    Live,
    /// The daily rollups, for longer ranges.
    Rollup,
}

/// The source of a trend query over `[from, to]` (milliseconds): ranges that
/// span at most one whole day read the raw samples, longer ones the daily
/// rollups.
pub fn trend_source(from: i64, to: i64) -> (r: TrendSource)
    ensures
        r == (if to - from < 2 * MILLIS_PER_DAY {
            TrendSource::Live
        } else {
            TrendSource::Rollup
        }),
{
    let range: i128 = (to as i128) - (from as i128);
    if range < 2 * (MILLIS_PER_DAY as i128) {
        TrendSource::Live
    } else {
        TrendSource::Rollup
    }
}

} // verus!
