//! Compiled filter patterns: a regex together with the text it was compiled
//! from, so that what a match gives can be stated over that text.

use vstd::prelude::*;

verus! {

#[verifier::external_type_specification]
#[verifier::external_body]
pub struct ExRegex(regex::Regex);

/// How the `regex` crate parses a pattern: `None` when it compiles, else the
/// text of its error.
pub uninterp spec fn regex_parse(pattern: Seq<char>) -> Option<Seq<char>>;

/// Whether the regex compiled from `pattern` matches somewhere in `text`, as
/// `regex::Regex::is_match` decides it.
pub uninterp spec fn regex_matches(pattern: Seq<char>, text: Seq<char>) -> bool;

/// A regex and the pattern text it was compiled from. Only [`compile_pattern`]
/// makes one.
pub struct CompiledPattern {
    regex: regex::Regex,
    source: String,
}

impl CompiledPattern {
    /// The pattern text this regex was compiled from.
    pub closed spec fn source(&self) -> Seq<char> {
        self.source@
    }
}

/// Compiles a pattern.
///
/// Calls `regex::Regex::new`; whether it compiles and the error's text are
/// named by [`regex_parse`], which depends on the pattern alone. The compiled
/// regex is kept with a copy of its pattern.
#[verifier::external_body]
pub(crate) fn compile_pattern(pattern: &str) -> (r: Result<CompiledPattern, String>)
    ensures
        match r {
            Ok(c) => regex_parse(pattern@) is None && c.source() == pattern@,
            Err(m) => regex_parse(pattern@) == Some(m@),
        },
{
    match regex::Regex::new(pattern) {
        Ok(regex) => Ok(CompiledPattern { regex, source: pattern.to_owned() }),
        Err(e) => Err(e.to_string()),
    }
}

/// Runs a compiled pattern on an input.
///
/// Calls `regex::Regex::is_match`; the answer is named by [`regex_matches`]
/// over the pattern's text and the input.
#[verifier::external_body]
pub(crate) fn pattern_is_match(p: &CompiledPattern, input: &str) -> (r: bool)
    ensures
        r == regex_matches(p.source(), input@),
{
    p.regex.is_match(input)
}

} // verus!
