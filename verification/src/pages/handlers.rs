//! The decisions of the pages API handlers: request validation, slug rules and
//! the HTTP status and message of each refusal.

use vstd::prelude::*;

use super::constants::{
    reserved_slugs, MAX_CATEGORIES_PER_GUILD, MAX_CATEGORY_NAME_LENGTH, MAX_CONTENT_SIZE, MAX_SLUG_LENGTH, MAX_TITLE_LENGTH,
};
use super::queries::{is_reserved_slug, slug_of_lowered, slugify, unicode_lowercase};
use super::types::{CreatePageRequest, UpdatePageRequest};
use crate::permissions::guild::describe_text;
use crate::permissions::resolver::{permission_error_text, PermissionError};
use crate::text::{chars_of, contains_chars, contains_seq, decimal, push_decimal, push_str, trim_str, trimmed};

verus! {

/// HTTP 400 Bad Request.
pub const BAD_REQUEST: u16 = 400;

/// HTTP 403 Forbidden.
pub const FORBIDDEN: u16 = 403;

/// HTTP 404 Not Found.
pub const NOT_FOUND: u16 = 404;

/// HTTP 409 Conflict.
pub const CONFLICT: u16 = 409;

/// HTTP 500 Internal Server Error.
pub const INTERNAL_SERVER_ERROR: u16 = 500;

/// A refused page request: HTTP status code and message.
#[derive(Debug, Clone, PartialEq, Eq)]
pub struct PageError {
    pub status: u16,
    pub message: String,
}

/// Outcome of a page check: `Ok`, or the status and message of the refusal.
pub open spec fn page_result_view(r: Result<(), PageError>) -> Result<(), (u16, Seq<char>)> {
    match r {
        Ok(()) => Ok(()),
        Err(e) => Err((e.status, e.message@)),
    }
}

fn page_error(status: u16, message: &str) -> (r: PageError)
    ensures
        r.status == status,
        r.message@ == message@,
{
    PageError { status, message: message.to_owned() }
}

/// UTF-8 byte length of a text.
///
/// This is the value of `str::len` on a slice that holds `s`.
pub open spec fn byte_len(s: Seq<char>) -> usize {
    vstd::utf8::encode_utf8(s).len() as usize
}

/// Outcome of validating a page title: required, at most 100 characters.
pub open spec fn title_outcome(title: Seq<char>, empty_message: Seq<char>) -> Result<
    (),
    (u16, Seq<char>),
> {
    if title.len() == 0 {
        Err((BAD_REQUEST, empty_message))
    } else if title.len() > MAX_TITLE_LENGTH {
        Err((BAD_REQUEST, "Title exceeds 100 characters"@))
    } else {
        Ok(())
    }
}

/// Outcome of validating page content: required, at most 102400 bytes.
pub open spec fn content_outcome(content: Seq<char>, empty_message: Seq<char>) -> Result<
    (),
    (u16, Seq<char>),
> {
    if content.len() == 0 {
        Err((BAD_REQUEST, empty_message))
    } else if byte_len(content) > MAX_CONTENT_SIZE {
        Err((BAD_REQUEST, "Content exceeds 102400 bytes"@))
    } else {
        Ok(())
    }
}

fn check_title(title: &str, empty_message: &str) -> (r: Result<(), PageError>)
    ensures
        page_result_view(r) == title_outcome(title@, empty_message@),
{
    if title.is_empty() {
        return Err(page_error(BAD_REQUEST, empty_message));
    }
    if chars_of(title).len() > MAX_TITLE_LENGTH {
        return Err(page_error(BAD_REQUEST, "Title exceeds 100 characters"));
    }
    Ok(())
}

fn check_content(content: &str, empty_message: &str) -> (r: Result<(), PageError>)
    ensures
        page_result_view(r) == content_outcome(content@, empty_message@),
{
    if content.is_empty() {
        return Err(page_error(BAD_REQUEST, empty_message));
    }
    if content.len() > MAX_CONTENT_SIZE {
        return Err(page_error(BAD_REQUEST, "Content exceeds 102400 bytes"));
    }
    Ok(())
}

/// Validate a page creation request: title first, then content.
pub fn validate_create_request(req: &CreatePageRequest) -> (r: Result<(), PageError>)
    ensures
        page_result_view(r) == (if title_outcome(req.title@, "Title is required"@) is Err {
            title_outcome(req.title@, "Title is required"@)
        } else {
            content_outcome(req.content@, "Content is required"@)
        }),
{
    let t = check_title(req.title.as_str(), "Title is required");
    if t.is_err() {
        return t;
    }
    check_content(req.content.as_str(), "Content is required")
}

/// Validate a page update request: the title and content that are present.
pub fn validate_update_request(req: &UpdatePageRequest) -> (r: Result<(), PageError>)
    ensures
        page_result_view(r) == ({
            let t = match req.title {
                Some(title) => title_outcome(title@, "Title cannot be empty"@),
                None => Ok(()),
            };
            if t is Err {
                t
            } else {
                match req.content {
                    Some(content) => content_outcome(content@, "Content cannot be empty"@),
                    None => Ok(()),
                }
            }
        }),
{
    if let Some(title) = &req.title {
        let t = check_title(title.as_str(), "Title cannot be empty");
        if t.is_err() {
            return t;
        }
    }
    if let Some(content) = &req.content {
        return check_content(content.as_str(), "Content cannot be empty");
    }
    Ok(())
}

/// The slug format: lowercase ASCII letters, digits and single dashes, with no
/// dash at either end.
pub open spec fn slug_format_ok(s: Seq<char>) -> bool {
    &&& forall|i: int|
        0 <= i < s.len() ==> ('a' <= #[trigger] s[i] <= 'z' || '0' <= s[i] <= '9' || s[i] == '-')
    &&& !(s.len() > 0 && s[0] == '-')
    &&& !(s.len() > 0 && s.last() == '-')
    &&& forall|i: int| 0 <= i < s.len() - 1 ==> !(#[trigger] s[i] == '-' && s[i + 1] == '-')
}

/// Outcome of validating a slug.
pub open spec fn slug_outcome(slug: Seq<char>) -> Result<(), (u16, Seq<char>)> {
    if slug.len() == 0 {
        Err((BAD_REQUEST, "Slug cannot be empty"@))
    } else if byte_len(slug) > MAX_SLUG_LENGTH {
        Err((BAD_REQUEST, "Slug exceeds 100 characters"@))
    } else if reserved_slugs().contains(slug) {
        Err((BAD_REQUEST, "'"@ + slug + "' is a reserved slug"@))
    } else if !slug_format_ok(slug) {
        Err(
            (
                BAD_REQUEST,
                "Invalid slug format. Use lowercase letters, numbers, and single dashes (e.g., 'terms-of-service', 'faq-page')"@,
            ),
        )
    } else {
        Ok(())
    }
}

/// Validate a page slug: non-empty, at most 100 bytes, not reserved, and in
/// the slug format.
pub fn validate_slug(slug: &str) -> (r: Result<(), PageError>)
    ensures
        page_result_view(r) == slug_outcome(slug@),
{
    if slug.is_empty() {
        return Err(page_error(BAD_REQUEST, "Slug cannot be empty"));
    }
    if slug.len() > MAX_SLUG_LENGTH {
        return Err(page_error(BAD_REQUEST, "Slug exceeds 100 characters"));
    }
    if is_reserved_slug(slug) {
        let mut message = "'".to_owned();
        push_str(&mut message, slug);
        push_str(&mut message, "' is a reserved slug");
        assert(message@ =~= "'"@ + slug@ + "' is a reserved slug"@);
        return Err(PageError { status: BAD_REQUEST, message });
    }
    let cs = chars_of(slug);
    let n = cs.len();
    let mut ok = cs[0] != '-' && cs[n - 1] != '-';
    let mut i: usize = 0;
    while i < n
        invariant
            n == cs@.len(),
            n > 0,
            cs@ == slug@,
            i <= n,
            ok == (cs@[0] != '-' && cs@[n - 1] != '-' && (forall|k: int|
                0 <= k < i ==> ('a' <= #[trigger] cs@[k] <= 'z' || '0' <= cs@[k] <= '9' || cs@[k]
                    == '-')) && (forall|k: int|
                0 <= k < i && k < n - 1 ==> !(#[trigger] cs@[k] == '-' && cs@[k + 1] == '-'))),
        decreases n - i,
    {
        let c = cs[i];
        if !(('a' <= c && c <= 'z') || ('0' <= c && c <= '9') || c == '-') {
            ok = false;
        }
        if i + 1 < n && c == '-' && cs[i + 1] == '-' {
            ok = false;
        }
        i += 1;
    }
    assert(ok ==> slug_format_ok(slug@));
    assert(!ok ==> !slug_format_ok(slug@));
    if !ok {
        return Err(
            page_error(
                BAD_REQUEST,
                "Invalid slug format. Use lowercase letters, numbers, and single dashes (e.g., 'terms-of-service', 'faq-page')",
            ),
        );
    }
    Ok(())
}

/// The slug a new page gets: the requested one, or the slug of the title.
pub fn choose_slug(requested: Option<String>, title: &str) -> (r: String)
    ensures
        r@ == match requested {
            Some(s) => s@,
            None => slug_of_lowered(unicode_lowercase(title@)),
        },
{
    match requested {
        Some(s) => s,
        None => slugify(title),
    }
}

/// Outcome of validating a category name: trimmed, required, at most 50
/// characters; the trimmed name is what gets stored.
pub open spec fn category_name_outcome(name: Seq<char>) -> Result<Seq<char>, (u16, Seq<char>)> {
    let t = trimmed(name);
    if t.len() == 0 {
        Err((BAD_REQUEST, "Category name is required"@))
    } else if t.len() > MAX_CATEGORY_NAME_LENGTH {
        Err((BAD_REQUEST, "Category name exceeds 50 characters"@))
    } else {
        Ok(t)
    }
}

/// Validate a category name and return it trimmed.
pub fn validate_category_name(name: &str) -> (r: Result<String, PageError>)
    ensures
        match r {
            Ok(s) => category_name_outcome(name@) == Ok::<Seq<char>, (u16, Seq<char>)>(s@),
            Err(e) => category_name_outcome(name@) == Err::<Seq<char>, (u16, Seq<char>)>(
                (e.status, e.message@),
            ),
        },
{
    let t = trim_str(name);
    if t.is_empty() {
        return Err(page_error(BAD_REQUEST, "Category name is required"));
    }
    if chars_of(t).len() > MAX_CATEGORY_NAME_LENGTH {
        return Err(page_error(BAD_REQUEST, "Category name exceeds 50 characters"));
    }
    Ok(t.to_owned())
}

/// The HTTP status and message for a failed permission check.
pub open spec fn permission_response(e: PermissionError) -> (u16, Seq<char>) {
    match e {
        PermissionError::NotGuildMember => (FORBIDDEN, "Not a member of this guild"@),
        PermissionError::MissingPermission(p) => (
            FORBIDDEN,
            "Missing permission: "@ + describe_text(p@),
        ),
        PermissionError::DatabaseError(_) => (INTERNAL_SERVER_ERROR, "Internal server error"@),
        _ => (FORBIDDEN, permission_error_text(e)),
    }
}

/// Convert a `PermissionError` to an HTTP response.
pub fn permission_error_to_response(err: PermissionError) -> (r: PageError)
    ensures
        (r.status, r.message@) == permission_response(err),
{
    match err {
        PermissionError::NotGuildMember => page_error(FORBIDDEN, "Not a member of this guild"),
        PermissionError::MissingPermission(p) => {
            let mut message = "Missing permission: ".to_owned();
            push_str(&mut message, p.describe().as_str());
            PageError { status: FORBIDDEN, message }
        },
        PermissionError::DatabaseError(_) => page_error(
            INTERNAL_SERVER_ERROR,
            "Internal server error",
        ),
        _ => PageError { status: FORBIDDEN, message: err.message() },
    }
}

/// Whether a caller may manage platform pages: the admin lookup failed
/// (`None`), refused, or allowed.
pub fn check_system_admin(is_admin: Option<bool>) -> (r: Result<(), PageError>)
    ensures
        page_result_view(r) == match is_admin {
            None => Err((INTERNAL_SERVER_ERROR, "Permission check failed"@)),
            Some(false) => Err((FORBIDDEN, "System admin required"@)),
            Some(true) => Ok(()),
        },
{
    match is_admin {
        None => Err(page_error(INTERNAL_SERVER_ERROR, "Permission check failed")),
        Some(false) => Err(page_error(FORBIDDEN, "System admin required")),
        Some(true) => Ok(()),
    }
}

/// A page is served under a scope (a guild, or `None` for the platform) only
/// when it exists and belongs to that scope; otherwise the page is reported
/// as missing. `page_guild` is the looked-up page's guild, `None` when no page
/// was found.
pub fn check_page_scope(page_guild: Option<Option<u128>>, scope: Option<u128>) -> (r: Result<
    (),
    PageError,
>)
    ensures
        page_result_view(r) == (if page_guild == Some(scope) {
            Ok(())
        } else {
            Err((NOT_FOUND, "Page not found"@))
        }),
{
    match page_guild {
        Some(g) => {
            let same = match (g, scope) {
                (Some(a), Some(b)) => a == b,
                (None, None) => true,
                _ => false,
            };
            if same {
                Ok(())
            } else {
                Err(page_error(NOT_FOUND, "Page not found"))
            }
        },
        None => Err(page_error(NOT_FOUND, "Page not found")),
    }
}

/// A slug is free only when the lookup succeeded and found no other page with
/// it; a failed lookup (`None`) counts as taken.
pub fn check_slug_free(exists: Option<bool>) -> (r: Result<(), PageError>)
    ensures
        page_result_view(r) == (if exists == Some(false) {
            Ok(())
        } else {
            Err((CONFLICT, "Slug already exists"@))
        }),
{
    match exists {
        Some(false) => Ok(()),
        _ => Err(page_error(CONFLICT, "Slug already exists")),
    }
}

/// A slug deleted recently cannot be reused; a failed lookup (`None`) counts
/// as recently deleted.
pub fn check_slug_not_recently_deleted(deleted: Option<bool>) -> (r: Result<(), PageError>)
    ensures
        page_result_view(r) == (if deleted == Some(false) {
            Ok(())
        } else {
            Err((CONFLICT, "Slug was recently deleted. Try a different slug."@))
        }),
{
    match deleted {
        Some(false) => Ok(()),
        _ => Err(page_error(CONFLICT, "Slug was recently deleted. Try a different slug.")),
    }
}

/// Platform pages have no categories.
pub fn check_platform_category(category_given: bool) -> (r: Result<(), PageError>)
    ensures
        page_result_view(r) == (if category_given {
            Err((BAD_REQUEST, "Categories are not supported for platform pages"@))
        } else {
            Ok(())
        }),
{
    if category_given {
        Err(page_error(BAD_REQUEST, "Categories are not supported for platform pages"))
    } else {
        Ok(())
    }
}

/// The refusal when a scope holds its maximum number of pages.
pub open spec fn page_limit_message(max: i64) -> Seq<char> {
    "Maximum "@ + decimal(max as int) + " pages reached"@
}

/// A page can be added only when the scope is known to be under its page
/// limit; a failed count (`None`) counts as at the limit.
pub fn check_page_limit(at_limit: Option<bool>, max: i64) -> (r: Result<(), PageError>)
    ensures
        page_result_view(r) == (if at_limit == Some(false) {
            Ok(())
        } else {
            Err((BAD_REQUEST, page_limit_message(max)))
        }),
{
    match at_limit {
        Some(false) => Ok(()),
        _ => {
            let mut message = "Maximum ".to_owned();
            push_decimal(&mut message, max);
            push_str(&mut message, " pages reached");
            Err(PageError { status: BAD_REQUEST, message })
        },
    }
}

/// A category given for a guild page must exist (`category_guild` is its
/// guild, `None` when not found) and belong to the same guild.
pub fn check_category_in_guild(category_guild: Option<u128>, guild_id: u128) -> (r: Result<
    (),
    PageError,
>)
    ensures
        page_result_view(r) == match category_guild {
            None => Err((BAD_REQUEST, "Category not found"@)),
            Some(g) => if g == guild_id {
                Ok(())
            } else {
                Err((BAD_REQUEST, "Category does not belong to this guild"@))
            },
        },
{
    match category_guild {
        None => Err(page_error(BAD_REQUEST, "Category not found")),
        Some(g) => if g == guild_id {
            Ok(())
        } else {
            Err(page_error(BAD_REQUEST, "Category does not belong to this guild"))
        },
    }
}

/// The stored fields of a page revision, when one was found.
#[derive(Debug, Clone)]
pub struct RevisionFields {
    pub content: Option<String>,
    pub title: Option<String>,
}

/// The title and content a page takes when restored to a revision: the
/// revision's content (a revision without content is corrupt) and its title,
/// or the page's current title when the revision has none.
pub fn restore_fields(revision: Option<RevisionFields>, current_title: String) -> (r: Result<
    (String, String),
    PageError,
>)
    ensures
        match revision {
            None => r matches Err(e) && e.status == NOT_FOUND && e.message@ == "Revision not found"@,
            Some(rev) => match rev.content {
                None => r matches Err(e) && e.status == INTERNAL_SERVER_ERROR && e.message@
                    == "Revision data is corrupted (missing content)"@,
                Some(c) => r matches Ok((t, body)) && body@ == c@ && t@ == match rev.title {
                    Some(rt) => rt@,
                    None => current_title@,
                },
            },
        },
{
    match revision {
        None => Err(page_error(NOT_FOUND, "Revision not found")),
        Some(rev) => match rev.content {
            None => Err(
                page_error(INTERNAL_SERVER_ERROR, "Revision data is corrupted (missing content)"),
            ),
            Some(c) => {
                let t = match rev.title {
                    Some(rt) => rt,
                    None => current_title,
                };
                Ok((t, c))
            },
        },
    }
}

/// How many revisions a page keeps: the guild's own limit when it set one,
/// else the instance default; when the lookup failed (`None`), the default.
pub fn effective_revision_limit(lookup: Option<Option<i32>>, config_default: i64) -> (r: i64)
    ensures
        r == match lookup {
            Some(Some(v)) => v as i64,
            _ => config_default,
        },
{
    match lookup {
        Some(Some(v)) => v as i64,
        _ => config_default,
    }
}

/// A guild may hold at most 20 page categories; a failed count (`None`)
/// counts as at the limit.
pub fn check_category_limit(count: Option<i64>) -> (r: Result<(), PageError>)
    ensures
        page_result_view(r) == (if count matches Some(c) && c < MAX_CATEGORIES_PER_GUILD {
            Ok(())
        } else {
            Err((BAD_REQUEST, "Maximum 20 categories reached"@))
        }),
{
    match count {
        Some(c) => if c < MAX_CATEGORIES_PER_GUILD {
            Ok(())
        } else {
            Err(page_error(BAD_REQUEST, "Maximum 20 categories reached"))
        },
        None => Err(page_error(BAD_REQUEST, "Maximum 20 categories reached")),
    }
}

/// A category to edit or delete must exist (`category_guild` is its guild,
/// `None` when not found) and belong to the guild of the request; otherwise
/// it is not found.
pub fn check_category_owned(category_guild: Option<u128>, guild_id: u128) -> (r: Result<
    (),
    PageError,
>)
    ensures
        page_result_view(r) == (if category_guild == Some(guild_id) {
            Ok(())
        } else {
            Err((NOT_FOUND, "Category not found"@))
        }),
{
    match category_guild {
        Some(g) => if g == guild_id {
            Ok(())
        } else {
            Err(page_error(NOT_FOUND, "Category not found"))
        },
        None => Err(page_error(NOT_FOUND, "Category not found")),
    }
}

/// The answer when writing a category failed with the database message
/// `db_message`: a clash with the guild's unique category names is a 409,
/// anything else an internal error.
pub fn category_write_error(db_message: &str) -> (r: PageError)
    ensures
        (r.status, r.message@) == (if contains_seq(db_message@, "idx_page_categories_guild_name"@) {
            (CONFLICT, "Category name already exists"@)
        } else {
            (INTERNAL_SERVER_ERROR, "Internal server error"@)
        }),
{
    let hay = chars_of(db_message);
    let needle = chars_of("idx_page_categories_guild_name");
    if contains_chars(&hay, &needle) {
        page_error(CONFLICT, "Category name already exists")
    } else {
        page_error(INTERNAL_SERVER_ERROR, "Internal server error")
    }
}

/// Number of attempts made to store a revision snapshot.
pub const MAX_REVISION_ATTEMPTS: usize = 3;

/// Whether a failed attempt (numbered from 0) to store a revision is tried
/// again: only a clash on the unique revision number is, and only while
/// attempts remain.
pub fn retry_revision(attempt: usize, unique_violation: bool) -> (r: bool)
    ensures
        r == (unique_violation && attempt + 1 < MAX_REVISION_ATTEMPTS),
{
    unique_violation && attempt < MAX_REVISION_ATTEMPTS - 1
}

/// Whether a scope that holds `count` pages is at its limit `max`.
pub fn at_page_limit(count: i64, max: i64) -> (r: bool)
    ensures
        r == (count >= max),
{
    count >= max
}

} // verus!
