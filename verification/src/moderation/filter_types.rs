//! Content filter categories, actions, request and response types, and errors.

use vstd::prelude::*;

verus! {

/// Built-in filter categories.
#[derive(Debug, Clone, Copy, PartialEq, Eq, Structural)]
pub enum FilterCategory {
    Slurs,
    HateSpeech,
    Spam,
    AbusiveLanguage,
    Custom,
}

/// The snake_case name of a category, as stored and displayed.
pub open spec fn category_text(c: FilterCategory) -> Seq<char> {
    match c {
        FilterCategory::Slurs => "slurs"@,
        FilterCategory::HateSpeech => "hate_speech"@,
        FilterCategory::Spam => "spam"@,
        FilterCategory::AbusiveLanguage => "abusive_language"@,
        FilterCategory::Custom => "custom"@,
    }
}

impl FilterCategory {
    /// The snake_case name of the category.
    pub fn as_str(&self) -> (r: &'static str)
        ensures
            r@ == category_text(*self),
    {
        match self {
            FilterCategory::Slurs => "slurs",
            FilterCategory::HateSpeech => "hate_speech",
            FilterCategory::Spam => "spam",
            FilterCategory::AbusiveLanguage => "abusive_language",
            FilterCategory::Custom => "custom",
        }
    }
}

/// Action to take when a filter matches.
#[derive(Debug, Clone, Copy, PartialEq, Eq, Structural)]
pub enum FilterAction {
    Block,
    Log,
    Warn,
}

/// The snake_case name of an action, as stored and displayed.
pub open spec fn action_text(a: FilterAction) -> Seq<char> {
    match a {
        FilterAction::Block => "block"@,
        FilterAction::Log => "log"@,
        FilterAction::Warn => "warn"@,
    }
}

impl FilterAction {
    /// The snake_case name of the action.
    pub fn as_str(&self) -> (r: &'static str)
        ensures
            r@ == action_text(*self),
    {
        match self {
            FilterAction::Block => "block",
            FilterAction::Log => "log",
            FilterAction::Warn => "warn",
        }
    }
}

/// Single category config in a bulk update request.
#[derive(Debug, Clone, Copy, PartialEq, Eq)]
pub struct FilterConfigEntry {
    pub category: FilterCategory,
    pub enabled: bool,
    pub action: FilterAction,
}

/// Request to update guild filter configs (bulk upsert).
#[derive(Debug, Clone)]
pub struct UpdateFilterConfigsRequest {
    pub configs: Vec<FilterConfigEntry>,
}

/// Request to create a custom filter pattern.
#[derive(Debug, Clone)]
pub struct CreatePatternRequest {
    pub pattern: String,
    pub is_regex: bool,
    pub description: Option<String>,
}

/// Request to update a custom filter pattern.
///
/// `description`: absent = unchanged, `Some(None)` = clear, `Some(Some(text))` = set.
#[derive(Debug, Clone)]
pub struct UpdatePatternRequest {
    pub pattern: Option<String>,
    pub is_regex: Option<bool>,
    pub description: Option<Option<String>>,
    pub enabled: Option<bool>,
}

/// Request to test content against active filters.
#[derive(Debug, Clone)]
pub struct TestFilterRequest {
    pub content: String,
}

/// Pagination query parameters.
#[derive(Debug, Clone, Copy)]
pub struct PaginationQuery {
    pub limit: i64,
    pub offset: i64,
}

/// Page size when the query names none.
pub fn default_limit() -> (r: i64)
    ensures
        r == 50,
{
    50
}

/// Result of testing content against filters.
#[derive(Debug, Clone)]
pub struct TestFilterResponse {
    pub blocked: bool,
    pub matches: Vec<FilterMatchResponse>,
}

/// A single filter match in test results.
#[derive(Debug, Clone)]
pub struct FilterMatchResponse {
    pub category: FilterCategory,
    pub action: FilterAction,
    pub matched_pattern: String,
}

/// Errors from filter operations.
#[derive(Debug, Clone, PartialEq, Eq)]
pub enum FilterError {
    /// Filter configuration not found.
    NotFound,
    /// Forbidden.
    Forbidden,
    /// Validation error with its detail.
    Validation(String),
    /// Database error, with the database's own message.
    Database(String),
}

} // verus!
