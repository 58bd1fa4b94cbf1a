//! Limits of the information pages feature.

use vstd::prelude::*;

verus! {

/// Default maximum pages per scope (guild or platform).
pub const DEFAULT_MAX_PAGES_PER_SCOPE: i64 = 10;

/// Default maximum revisions per page.
pub const DEFAULT_MAX_REVISIONS_PER_PAGE: i64 = 25;

/// Maximum content size in bytes (100KB).
pub const MAX_CONTENT_SIZE: usize = 102_400;

/// Maximum title length in characters.
pub const MAX_TITLE_LENGTH: usize = 100;

/// Maximum slug length in characters.
pub const MAX_SLUG_LENGTH: usize = 100;

/// Maximum category name length in characters.
pub const MAX_CATEGORY_NAME_LENGTH: usize = 50;

/// Maximum categories per guild.
pub const MAX_CATEGORIES_PER_GUILD: i64 = 20;

/// Deleted slug cooldown period in days: a recently deleted slug cannot be
/// reused right away.
pub const DELETED_SLUG_COOLDOWN_DAYS: i64 = 7;

/// Reserved slugs, which could conflict with API routes or navigation.
pub open spec fn reserved_slugs() -> Seq<Seq<char>> {
    seq![
        "admin"@,
        "api"@,
        "new"@,
        "edit"@,
        "delete"@,
        "settings"@,
        "create"@,
        "update"@,
        "list"@,
        "all"@,
        "me"@,
        "system"@,
        "library"@,
        "revisions"@,
        "categories"@,
    ]
}

/// The reserved slugs, in the order of [`reserved_slugs`].
pub fn reserved_slug_list() -> (r: &'static [&'static str])
    ensures
        r@.len() == reserved_slugs().len(),
        forall|i: int| 0 <= i < r@.len() ==> #[trigger] r@[i]@ == reserved_slugs()[i],
{
    &[
        "admin",
        "api",
        "new",
        "edit",
        "delete",
        "settings",
        "create",
        "update",
        "list",
        "all",
        "me",
        "system",
        "library",
        "revisions",
        "categories",
    ]
}

} // verus!
