//! Rich presence activity types and the validation of user-supplied text.

use vstd::prelude::*;

use crate::text::{chars_of, trim_str, trimmed};

verus! {

/// Maximum length for activity name.
pub const MAX_ACTIVITY_NAME_LEN: usize = 128;

/// Maximum length for activity details.
pub const MAX_ACTIVITY_DETAILS_LEN: usize = 256;

/// Maximum length for custom status text.
pub const MAX_CUSTOM_STATUS_TEXT_LEN: usize = 128;

/// Maximum grapheme clusters for custom status emoji.
pub const MAX_CUSTOM_STATUS_EMOJI_GRAPHEMES: usize = 10;

/// Maximum combining marks per base character.
pub const MAX_COMBINING_MARKS_PER_BASE: usize = 3;

/// Type of activity the user is engaged in.
#[derive(Debug, Clone, Copy, PartialEq, Eq, Structural)]
pub enum ActivityType {
    Game,
    Listening,
    Watching,
    Coding,
    Custom,
}

/// Unicode general category Cc: the C0 and C1 control codes.
pub open spec fn is_control_char(c: char) -> bool {
    (c as u32) <= 0x1F || (0x7F <= (c as u32) && (c as u32) <= 0x9F)
}

/// Whether `c` is a control code.
///
/// Calls `char::is_control`, documented to return true exactly for the
/// general category of control codes (C0 and C1, U+0000-U+001F and
/// U+007F-U+009F); the contract states that range.
#[verifier::external_body]
fn char_is_control(c: char) -> (r: bool)
    ensures
        r == is_control_char(c),
{
    c.is_control()
}

/// Unsafe Unicode: control characters other than space and newline, zero-width
/// space and non-joiner, and the bidi override characters.
pub open spec fn is_unsafe_char(c: char) -> bool {
    (is_control_char(c) && c != ' ' && c != '\n') || c == '\u{200B}' || c == '\u{200C}' || c
        == '\u{202C}' || c == '\u{202D}' || c == '\u{202E}'
}

/// The combining-mark blocks used in Zalgo text.
pub open spec fn is_combining_char(c: char) -> bool {
    let cp = c as u32;
    (0x0300 <= cp && cp <= 0x036F) || (0x1AB0 <= cp && cp <= 0x1AFF) || (0x1DC0 <= cp && cp
        <= 0x1DFF) || (0x20D0 <= cp && cp <= 0x20FF) || (0xFE20 <= cp && cp <= 0xFE2F)
}

/// Returns true if the character is an unsafe Unicode format or override character.
pub fn is_unsafe_unicode(c: char) -> (r: bool)
    ensures
        r == is_unsafe_char(c),
{
    (char_is_control(c) && c != ' ' && c != '\n') || c == '\u{200B}' || c == '\u{200C}' || c
        == '\u{202C}' || c == '\u{202D}' || c == '\u{202E}'
}

/// Check if a Unicode character is a combining mark.
pub fn is_combining_mark(c: char) -> (r: bool)
    ensures
        r == is_combining_char(c),
{
    let cp = c as u32;
    (0x0300 <= cp && cp <= 0x036F) || (0x1AB0 <= cp && cp <= 0x1AFF) || (0x1DC0 <= cp && cp
        <= 0x1DFF) || (0x20D0 <= cp && cp <= 0x20FF) || (0xFE20 <= cp && cp <= 0xFE2F)
}

/// More than three combining marks in a row somewhere in the text.
pub open spec fn has_combining_overflow(s: Seq<char>) -> bool {
    exists|i: int|
        0 <= i && i + 3 < s.len() && #[trigger] is_combining_char(s[i]) && is_combining_char(
            s[i + 1],
        ) && is_combining_char(s[i + 2]) && is_combining_char(s[i + 3])
}

/// The outcome of validating user text against a length limit in characters.
pub open spec fn unicode_text_outcome(s: Seq<char>, max_chars: int) -> Result<(), Seq<char>> {
    if s.len() > max_chars {
        Err("Text too long"@)
    } else if exists|i: int| 0 <= i < s.len() && is_unsafe_char(#[trigger] s[i]) {
        Err("Text contains invalid characters"@)
    } else if has_combining_overflow(s) {
        Err("Too many combining marks on a single character"@)
    } else {
        Ok(())
    }
}

/// The view of a result whose error is a string slice.
pub open spec fn str_result_view(r: Result<(), &'static str>) -> Result<(), Seq<char>> {
    match r {
        Ok(()) => Ok(()),
        Err(m) => Err(m@),
    }
}

/// Validate text for unsafe Unicode characters and combining mark abuse.
///
/// Checks, in order: at most `max_chars` characters; no unsafe character;
/// no more than three combining marks in a row.
pub fn validate_unicode_text(text: &str, max_chars: usize) -> (r: Result<(), &'static str>)
    ensures
        str_result_view(r) == unicode_text_outcome(text@, max_chars as int),
{
    let cs = chars_of(text);
    if cs.len() > max_chars {
        return Err("Text too long");
    }
    let mut i: usize = 0;
    while i < cs.len()
        invariant
            i <= cs@.len(),
            cs@ == text@,
            cs@.len() <= max_chars,
            forall|k: int| 0 <= k < i ==> !is_unsafe_char(#[trigger] cs@[k]),
        decreases cs@.len() - i,
    {
        if is_unsafe_unicode(cs[i]) {
            assert(is_unsafe_char(text@[i as int]));
            return Err("Text contains invalid characters");
        }
        i += 1;
    }
    let mut combining_count: usize = 0;
    let mut j: usize = 0;
    while j < cs.len()
        invariant
            j <= cs@.len(),
            cs@ == text@,
            cs@.len() <= max_chars,
            forall|k: int| 0 <= k < cs@.len() ==> !is_unsafe_char(#[trigger] cs@[k]),
            combining_count <= MAX_COMBINING_MARKS_PER_BASE,
            combining_count <= j,
            forall|k: int| j - combining_count <= k < j ==> is_combining_char(#[trigger] cs@[k]),
            j - combining_count == 0 || !is_combining_char(cs@[j - combining_count - 1]),
            forall|w: int|
                0 <= w && w + 3 < j ==> !(#[trigger] is_combining_char(cs@[w])
                    && is_combining_char(cs@[w + 1]) && is_combining_char(cs@[w + 2])
                    && is_combining_char(cs@[w + 3])),
        decreases cs@.len() - j,
    {
        if is_combining_mark(cs[j]) {
            combining_count += 1;
            if combining_count > MAX_COMBINING_MARKS_PER_BASE {
                let w = j - 3;
                assert(is_combining_char(cs@[w as int]) && is_combining_char(cs@[w + 1])
                    && is_combining_char(cs@[w + 2]) && is_combining_char(cs@[w + 3]));
                assert(has_combining_overflow(text@));
                return Err("Too many combining marks on a single character");
            }
        } else {
            combining_count = 0;
        }
        j += 1;
    }
    Ok(())
}

/// Rich presence activity data.
#[derive(Debug, Clone, PartialEq, Eq)]
pub struct Activity {
    /// Type of activity.
    pub activity_type: ActivityType,
    /// Display name (e.g., "Minecraft", "VS Code").
    pub name: String,
    /// When the activity started, in milliseconds since the Unix epoch.
    pub started_at: i64,
    /// Optional details (e.g., "Creative Mode", "Editing main.rs").
    pub details: Option<String>,
}

/// The outcome of validating an activity.
pub open spec fn activity_outcome(name: Seq<char>, details: Option<Seq<char>>) -> Result<
    (),
    Seq<char>,
> {
    if name.len() == 0 {
        Err("Activity name cannot be empty"@)
    } else if unicode_text_outcome(name, MAX_ACTIVITY_NAME_LEN as int) is Err {
        unicode_text_outcome(name, MAX_ACTIVITY_NAME_LEN as int)
    } else {
        match details {
            Some(d) => unicode_text_outcome(d, MAX_ACTIVITY_DETAILS_LEN as int),
            None => Ok(()),
        }
    }
}

/// The view of an optional string.
pub open spec fn opt_view(o: Option<String>) -> Option<Seq<char>> {
    match o {
        Some(s) => Some(s@),
        None => None,
    }
}

impl Activity {
    /// Validate activity data: a non-empty name of at most 128 characters and
    /// optional details of at most 256, both free of unsafe Unicode.
    pub fn validate(&self) -> (r: Result<(), &'static str>)
        ensures
            str_result_view(r) == activity_outcome(self.name@, opt_view(self.details)),
    {
        if self.name.as_str().is_empty() {
            return Err("Activity name cannot be empty");
        }
        let n = validate_unicode_text(self.name.as_str(), MAX_ACTIVITY_NAME_LEN);
        if n.is_err() {
            return n;
        }
        match &self.details {
            Some(details) => validate_unicode_text(details.as_str(), MAX_ACTIVITY_DETAILS_LEN),
            None => Ok(()),
        }
    }
}

/// The number of extended grapheme clusters in a text, as segmented by the
/// `unicode-segmentation` crate.
pub uninterp spec fn grapheme_count(s: Seq<char>) -> nat;

/// Counts the extended grapheme clusters of `s`.
///
/// Calls `UnicodeSegmentation::graphemes(s, true).count()`; the result is
/// named by [`grapheme_count`], which depends on the text alone.
#[verifier::external_body]
fn count_graphemes(s: &str) -> (r: usize)
    ensures
        r as nat == grapheme_count(s@),
{
    unicode_segmentation::UnicodeSegmentation::graphemes(s, true).count()
}

/// The grapheme count of an optional emoji (0 when absent).
pub open spec fn emoji_graphemes(emoji: Option<Seq<char>>) -> nat {
    match emoji {
        Some(e) => grapheme_count(e),
        None => 0,
    }
}

/// Custom status set by a user (text + optional emoji + optional expiry).
#[derive(Debug, Clone, PartialEq, Eq)]
pub struct CustomStatus {
    /// Display text for the custom status.
    pub text: String,
    /// Optional emoji (max 10 grapheme clusters).
    pub emoji: Option<String>,
    /// When the custom status expires, in milliseconds since the Unix epoch.
    pub expires_at: Option<i64>,
}

/// The outcome of validating a custom status, given the grapheme count of its
/// emoji and the current time.
pub open spec fn custom_status_outcome(
    text: Seq<char>,
    emoji: Option<Seq<char>>,
    emoji_graphemes: nat,
    expires_at: Option<i64>,
    now: i64,
) -> Result<(), Seq<char>> {
    let t = trimmed(text);
    if t.len() == 0 {
        Err("Custom status text cannot be empty"@)
    } else if unicode_text_outcome(t, MAX_CUSTOM_STATUS_TEXT_LEN as int) is Err {
        unicode_text_outcome(t, MAX_CUSTOM_STATUS_TEXT_LEN as int)
    } else if emoji is Some && emoji_graphemes > MAX_CUSTOM_STATUS_EMOJI_GRAPHEMES {
        Err("Emoji field too long (max 10 emoji)"@)
    } else if emoji is Some && unicode_text_outcome(
        emoji->0,
        MAX_CUSTOM_STATUS_TEXT_LEN as int,
    ) is Err {
        unicode_text_outcome(emoji->0, MAX_CUSTOM_STATUS_TEXT_LEN as int)
    } else if expires_at is Some && expires_at->0 <= now {
        Err("Expiry time must be in the future"@)
    } else {
        Ok(())
    }
}

impl CustomStatus {
    /// Validate a custom status against the emoji's grapheme count and the
    /// current time: non-empty trimmed text of at most 128 safe characters,
    /// an emoji of at most 10 graphemes and 128 safe characters, and an expiry
    /// in the future.
    pub fn validate_at(&self, emoji_graphemes: usize, now: i64) -> (r: Result<(), &'static str>)
        ensures
            str_result_view(r) == custom_status_outcome(
                self.text@,
                opt_view(self.emoji),
                emoji_graphemes as nat,
                self.expires_at,
                now,
            ),
    {
        let trimmed_text = trim_str(self.text.as_str());
        if trimmed_text.is_empty() {
            return Err("Custom status text cannot be empty");
        }
        let t = validate_unicode_text(trimmed_text, MAX_CUSTOM_STATUS_TEXT_LEN);
        if t.is_err() {
            return t;
        }
        if let Some(emoji) = &self.emoji {
            if emoji_graphemes > MAX_CUSTOM_STATUS_EMOJI_GRAPHEMES {
                return Err("Emoji field too long (max 10 emoji)");
            }
            let e = validate_unicode_text(emoji.as_str(), MAX_CUSTOM_STATUS_TEXT_LEN);
            if e.is_err() {
                return e;
            }
        }
        if let Some(expires_at) = self.expires_at {
            if expires_at <= now {
                return Err("Expiry time must be in the future");
            }
        }
        Ok(())
    }

    /// Validate custom status data against the current time.
    pub fn validate(&self) -> (r: Result<(), &'static str>)
        ensures
            exists|now: i64|
                str_result_view(r) == #[trigger] custom_status_outcome(
                    self.text@,
                    opt_view(self.emoji),
                    emoji_graphemes(opt_view(self.emoji)),
                    self.expires_at,
                    now,
                ),
    {
        let graphemes = match &self.emoji {
            Some(e) => count_graphemes(e.as_str()),
            None => 0,
        };
        assert(graphemes as nat == emoji_graphemes(opt_view(self.emoji)));
        let now = crate::clock::now_millis();
        let r = self.validate_at(graphemes, now);
        assert(str_result_view(r) == custom_status_outcome(
            self.text@,
            opt_view(self.emoji),
            emoji_graphemes(opt_view(self.emoji)),
            self.expires_at,
            now,
        ));
        r
    }
}

} // verus!
