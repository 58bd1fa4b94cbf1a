//! The decisions of the content filter API: request limits, regex checks and
//! pagination windows. Every endpoint first requires `MANAGE_GUILD`.

use vstd::prelude::*;

use super::filter_types::{FilterConfigEntry, FilterError};
use super::pattern::{compile_pattern, pattern_is_match, regex_matches, regex_parse};
use crate::text::{push_char, push_str};

verus! {

/// Maximum custom patterns per guild.
pub const MAX_CUSTOM_PATTERNS: i64 = 100;

/// Maximum pattern text length in bytes.
pub const MAX_PATTERN_LENGTH: usize = 500;

/// Maximum test input length in bytes.
pub const MAX_TEST_INPUT_LENGTH: usize = 4000;

/// Longest time a regex may take on the probe input, in nanoseconds (10 ms).
pub const MAX_REGEX_PROBE_NANOS: u128 = 10_000_000;

/// Length of the probe input used to detect catastrophic backtracking.
pub const REGEX_PROBE_LEN: usize = 1000;

/// UTF-8 byte length of a text (the value of `str::len`).
pub open spec fn byte_len(s: Seq<char>) -> usize {
    vstd::utf8::encode_utf8(s).len() as usize
}

fn validation(msg: &str) -> (r: FilterError)
    ensures
        r matches FilterError::Validation(m) && m@ == msg@,
{
    FilterError::Validation(msg.to_owned())
}

/// Validate the length of a pattern: 1 to 500 bytes.
pub fn validate_pattern_length(pattern: &str) -> (r: Result<(), FilterError>)
    ensures
        pattern@.len() == 0 || byte_len(pattern@) > MAX_PATTERN_LENGTH ==> (r matches Err(
            FilterError::Validation(m),
        ) && m@ == "Pattern must be 1-500 characters"@),
        !(pattern@.len() == 0 || byte_len(pattern@) > MAX_PATTERN_LENGTH) ==> r is Ok,
{
    if pattern.is_empty() || pattern.len() > MAX_PATTERN_LENGTH {
        return Err(validation("Pattern must be 1-500 characters"));
    }
    Ok(())
}

/// A guild may hold at most 100 custom patterns.
pub fn check_pattern_quota(existing_count: i64) -> (r: Result<(), FilterError>)
    ensures
        existing_count >= MAX_CUSTOM_PATTERNS ==> (r matches Err(FilterError::Validation(m))
            && m@ == "Maximum of 100 custom patterns per guild"@),
        existing_count < MAX_CUSTOM_PATTERNS ==> r is Ok,
{
    if existing_count >= MAX_CUSTOM_PATTERNS {
        return Err(validation("Maximum of 100 custom patterns per guild"));
    }
    Ok(())
}

/// A bulk config update must name at least one category.
pub fn require_config_entries(configs: &[FilterConfigEntry]) -> (r: Result<(), FilterError>)
    ensures
        configs@.len() == 0 ==> (r matches Err(FilterError::Validation(m)) && m@
            == "At least one config entry is required"@),
        configs@.len() > 0 ==> r is Ok,
{
    if configs.len() == 0 {
        return Err(validation("At least one config entry is required"));
    }
    Ok(())
}

/// Validate the content of a dry-run filter test: 1 to 4000 bytes.
pub fn validate_test_content(content: &str) -> (r: Result<(), FilterError>)
    ensures
        content@.len() == 0 || byte_len(content@) > MAX_TEST_INPUT_LENGTH ==> (r matches Err(
            FilterError::Validation(m),
        ) && m@ == "Test content must be 1-4000 characters"@),
        !(content@.len() == 0 || byte_len(content@) > MAX_TEST_INPUT_LENGTH) ==> r is Ok,
{
    if content.is_empty() || content.len() > MAX_TEST_INPUT_LENGTH {
        return Err(validation("Test content must be 1-4000 characters"));
    }
    Ok(())
}

/// The page of a paginated listing: the limit clamped to 1..=100 and the
/// offset raised to at least 0.
pub fn page_window(limit: i64, offset: i64) -> (r: (i64, i64))
    ensures
        r.0 == (if limit < 1 {
            1
        } else if limit > 100 {
            100
        } else {
            limit
        }),
        r.1 == (if offset < 0 {
            0
        } else {
            offset
        }),
        1 <= r.0 <= 100,
        r.1 >= 0,
{
    let l = if limit < 1 {
        1
    } else if limit > 100 {
        100
    } else {
        limit
    };
    let o = if offset < 0 {
        0
    } else {
        offset
    };
    (l, o)
}

/// What a pattern update must check before it reaches the database.
#[derive(Debug, Clone, Copy, PartialEq, Eq, Structural)]
pub enum RegexPlan {
    /// No regex validation is needed.
    Nothing,
    /// Validate the new pattern text as a regex.
    ValidateNewPattern,
    /// Load the stored pattern first; [`existing_pattern_check`] decides.
    LoadExisting,
}

/// First step of a pattern update: whether the stored row must be loaded.
///
/// Enabling regex validates the new text when there is one, else the stored
/// row decides; disabling regex validates nothing; leaving `is_regex` alone
/// with new text lets the stored row decide.
pub fn update_regex_plan(is_regex: Option<bool>, has_new_pattern: bool) -> (r: RegexPlan)
    ensures
        r == match is_regex {
            Some(true) => if has_new_pattern {
                RegexPlan::ValidateNewPattern
            } else {
                RegexPlan::LoadExisting
            },
            Some(false) => RegexPlan::Nothing,
            None => if has_new_pattern {
                RegexPlan::LoadExisting
            } else {
                RegexPlan::Nothing
            },
        },
{
    match is_regex {
        Some(true) => if has_new_pattern {
            RegexPlan::ValidateNewPattern
        } else {
            RegexPlan::LoadExisting
        },
        Some(false) => RegexPlan::Nothing,
        None => if has_new_pattern {
            RegexPlan::LoadExisting
        } else {
            RegexPlan::Nothing
        },
    }
}

/// Which text to validate once the stored pattern is loaded.
#[derive(Debug, Clone, Copy, PartialEq, Eq, Structural)]
pub enum ExistingCheck {
    /// Nothing to validate.
    Nothing,
    /// Validate the stored pattern text as a regex.
    ValidateStoredPattern,
    /// Validate the new pattern text as a regex.
    ValidateNewPattern,
}

/// Second step of a pattern update, given the stored row: a stored literal
/// pattern that becomes a regex is validated; new text for a stored regex is
/// validated.
pub fn existing_pattern_check(is_regex: Option<bool>, stored_is_regex: bool) -> (r: ExistingCheck)
    ensures
        r == match is_regex {
            Some(true) => if !stored_is_regex {
                ExistingCheck::ValidateStoredPattern
            } else {
                ExistingCheck::Nothing
            },
            Some(false) => ExistingCheck::Nothing,
            None => if stored_is_regex {
                ExistingCheck::ValidateNewPattern
            } else {
                ExistingCheck::Nothing
            },
        },
{
    match is_regex {
        Some(true) => if !stored_is_regex {
            ExistingCheck::ValidateStoredPattern
        } else {
            ExistingCheck::Nothing
        },
        Some(false) => ExistingCheck::Nothing,
        None => if stored_is_regex {
            ExistingCheck::ValidateNewPattern
        } else {
            ExistingCheck::Nothing
        },
    }
}

#[verifier::external_type_specification]
#[verifier::external_body]
pub struct ExInstant(std::time::Instant);

/// The current instant of the monotonic clock (`std::time::Instant::now`).
/// Nothing is stated of it.
#[verifier::external_body]
fn instant_now() -> std::time::Instant {
    std::time::Instant::now()
}

/// Nanoseconds elapsed since `start` (`Instant::elapsed` and
/// `Duration::as_nanos`). The value depends on the clock; nothing is stated.
#[verifier::external_body]
fn elapsed_nanos(start: &std::time::Instant) -> u128 {
    start.elapsed().as_nanos()
}

/// The outcome of a regex check, given how the pattern parsed and how long
/// the probe match took.
pub fn regex_check_outcome(parse_error: Option<String>, probe_nanos: u128) -> (r: Result<
    (),
    FilterError,
>)
    ensures
        match parse_error {
            Some(e) => r matches Err(FilterError::Validation(m)) && m@ == "Invalid regex: "@
                + e@,
            None => if probe_nanos > MAX_REGEX_PROBE_NANOS {
                r matches Err(FilterError::Validation(m)) && m@
                    == "Regex pattern is too slow (possible ReDoS). Simplify the pattern."@
            } else {
                r is Ok
            },
        },
{
    match parse_error {
        Some(e) => {
            let mut m = "Invalid regex: ".to_owned();
            push_str(&mut m, e.as_str());
            Err(FilterError::Validation(m))
        },
        None => {
            if probe_nanos > MAX_REGEX_PROBE_NANOS {
                Err(validation("Regex pattern is too slow (possible ReDoS). Simplify the pattern."))
            } else {
                Ok(())
            }
        },
    }
}

/// The text a pattern is timed on: 1000 `a` characters.
pub open spec fn redos_probe_text() -> Seq<char> {
    Seq::new(REGEX_PROBE_LEN as nat, |_i: int| 'a')
}

/// Builds the probe text.
pub fn redos_probe() -> (r: String)
    ensures
        r@ == redos_probe_text(),
{
    let mut probe = String::new();
    let mut i: usize = 0;
    while i < REGEX_PROBE_LEN
        invariant
            i <= REGEX_PROBE_LEN,
            probe@ == Seq::new(i as nat, |_i: int| 'a'),
        decreases REGEX_PROBE_LEN - i,
    {
        push_char(&mut probe, 'a');
        i += 1;
        assert(probe@ =~= Seq::new(i as nat, |_i: int| 'a'));
    }
    probe
}

/// What the slowness probe of a compiled pattern observed: whether it
/// matched the probe text, and how many nanoseconds the match took.
#[derive(Debug, Clone, Copy)]
pub struct RegexProbe {
    pub matched: bool,
    pub nanos: u128,
}

/// Validate a regex pattern: it must compile, and matching it against 1000
/// `a` characters must take at most 10 ms (basic ReDoS protection).
///
/// Returns the verdict, and for a pattern that compiles, what the probe run
/// on [`redos_probe_text`] observed; the verdict follows its measured time.
pub fn validate_regex(pattern: &str) -> (r: (Result<(), FilterError>, Option<RegexProbe>))
    ensures
        match regex_parse(pattern@) {
            Some(e) => r.1 is None && (r.0 matches Err(FilterError::Validation(m)) && m@
                == "Invalid regex: "@ + e),
            None => {
                &&& r.1 is Some
                &&& r.1->0.matched == regex_matches(pattern@, redos_probe_text())
                &&& r.1->0.nanos > MAX_REGEX_PROBE_NANOS ==> (r.0 matches Err(
                    FilterError::Validation(m),
                ) && m@ == "Regex pattern is too slow (possible ReDoS). Simplify the pattern."@)
                &&& r.1->0.nanos <= MAX_REGEX_PROBE_NANOS ==> r.0 is Ok
            },
        },
{
    match compile_pattern(pattern) {
        Err(e) => (regex_check_outcome(Some(e), 0), None),
        Ok(compiled) => {
            let probe = redos_probe();
            let start = instant_now();
            let matched = pattern_is_match(&compiled, probe.as_str());
            let nanos = elapsed_nanos(&start);
            (regex_check_outcome(None, nanos), Some(RegexProbe { matched, nanos }))
        },
    }
}

} // verus!
