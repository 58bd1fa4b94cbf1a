//! Message search within a guild: the query rules, the result window and the
//! assembly of results with their authors and channels.

use vstd::prelude::*;

use crate::pages::handlers::byte_len;
use crate::text::{trim_str, trimmed};

verus! {

/// A search request: the text, and the page of results wanted.
#[derive(Debug, Clone)]
pub struct SearchQuery {
    pub q: String,
    pub limit: i64,
    pub offset: i64,
}

/// The page size of a search that does not give one.
pub fn default_limit() -> (r: i64)
    ensures
        r == 25,
{
    25
}

/// A refused search.
#[derive(Debug, Clone)]
pub enum SearchError {
    GuildNotFound,
    NotMember,
    InvalidQuery(String),
    Database(String),
}

/// The HTTP status, error code and message that answer a refused search.
pub open spec fn search_error_response(e: SearchError) -> (u16, Seq<char>, Seq<char>) {
    match e {
        SearchError::GuildNotFound => (404, "NOT_FOUND"@, "Guild not found"@),
        SearchError::NotMember => (403, "FORBIDDEN"@, "Not a member of this guild"@),
        SearchError::InvalidQuery(m) => (400, "INVALID_QUERY"@, m@),
        SearchError::Database(_) => (500, "INTERNAL_ERROR"@, "Database error"@),
    }
}

impl SearchError {
    /// The HTTP status, error code and message of the answer.
    pub fn response(&self) -> (r: (u16, &'static str, String))
        ensures
            (r.0, r.1@, r.2@) == search_error_response(*self),
    {
        match self {
            SearchError::GuildNotFound => (404, "NOT_FOUND", "Guild not found".to_owned()),
            SearchError::NotMember => (403, "FORBIDDEN", "Not a member of this guild".to_owned()),
            SearchError::InvalidQuery(m) => (400, "INVALID_QUERY", m.clone()),
            SearchError::Database(_) => (500, "INTERNAL_ERROR", "Database error".to_owned()),
        }
    }
}

/// The searched text: the query without surrounding whitespace, which must
/// not be empty and must have at least 2 bytes.
pub fn search_term(q: &str) -> (r: Result<&str, SearchError>)
    ensures
        trimmed(q@).len() == 0 ==> (r matches Err(SearchError::InvalidQuery(m)) && m@
            == "Search query cannot be empty"@),
        trimmed(q@).len() > 0 && byte_len(trimmed(q@)) < 2 ==> (r matches Err(
            SearchError::InvalidQuery(m),
        ) && m@ == "Search query must be at least 2 characters"@),
        trimmed(q@).len() > 0 && byte_len(trimmed(q@)) >= 2 ==> (r matches Ok(t) && t@ == trimmed(
            q@,
        )),
{
    let t = trim_str(q);
    if t.is_empty() {
        return Err(SearchError::InvalidQuery("Search query cannot be empty".to_owned()));
    }
    if t.len() < 2 {
        return Err(
            SearchError::InvalidQuery("Search query must be at least 2 characters".to_owned()),
        );
    }
    Ok(t)
}

/// The page of results searched: at most 100 and at least 1 result, from an
/// offset that is not negative.
pub fn search_window(limit: i64, offset: i64) -> (r: (i64, i64))
    ensures
        r.0 == (if limit < 1 {
            1
        } else if limit > 100 {
            100
        } else {
            limit
        }),
        r.1 == (if offset < 0 {
            0
        } else {
            offset
        }),
{
    let l = if limit < 1 {
        1
    } else if limit > 100 {
        100
    } else {
        limit
    };
    let o = if offset < 0 {
        0
    } else {
        offset
    };
    (l, o)
}

/// Only members search a guild, and the guild must exist: a missing guild
/// is refused first, then a caller who is not a member.
pub fn check_search_access(guild_exists: bool, is_member: bool) -> (r: Result<(), SearchError>)
    ensures
        !guild_exists ==> r matches Err(SearchError::GuildNotFound),
        guild_exists && !is_member ==> r matches Err(SearchError::NotMember),
        guild_exists && is_member ==> r is Ok,
{
    if !guild_exists {
        Err(SearchError::GuildNotFound)
    } else if !is_member {
        Err(SearchError::NotMember)
    } else {
        Ok(())
    }
}

/// The page reported with the results. When the caller can see no channel
/// of the guild, the search runs nothing and the page is echoed as asked;
/// otherwise it is the clamped [`search_window`].
pub fn reported_window(has_accessible_channels: bool, limit: i64, offset: i64) -> (r: (i64, i64))
    ensures
        !has_accessible_channels ==> r == (limit, offset),
        has_accessible_channels ==> r == (if limit < 1 {
            1
        } else if limit > 100 {
            100
        } else {
            limit
        }, if offset < 0 {
            0
        } else {
            offset
        }),
{
    if has_accessible_channels {
        search_window(limit, offset)
    } else {
        (limit, offset)
    }
}

/// A message found by the search; times are milliseconds since the epoch.
#[derive(Debug, Clone)]
pub struct MessageHit {
    pub id: u128,
    pub channel_id: u128,
    pub user_id: u128,
    pub content: String,
    pub created_at: i64,
}

/// A user that wrote a found message.
#[derive(Debug, Clone)]
pub struct UserRecord {
    pub id: u128,
    pub username: String,
    pub display_name: String,
    pub avatar_url: Option<String>,
}

/// The author shown with a result.
#[derive(Debug, Clone)]
pub struct SearchAuthor {
    pub id: u128,
    pub username: String,
    pub display_name: String,
    pub avatar_url: Option<String>,
}

/// One search result.
#[derive(Debug, Clone)]
pub struct SearchResult {
    pub id: u128,
    pub channel_id: u128,
    pub channel_name: String,
    pub author: SearchAuthor,
    pub content: String,
    pub created_at: i64,
}

/// The last user record with this ID (later records replace earlier ones).
pub open spec fn user_by_id(users: Seq<UserRecord>, id: u128) -> Option<UserRecord>
    decreases users.len(),
{
    if users.len() == 0 {
        None
    } else if users.last().id == id {
        Some(users.last())
    } else {
        user_by_id(users.drop_last(), id)
    }
}

/// The last channel name recorded for this ID.
pub open spec fn channel_by_id(channels: Seq<(u128, String)>, id: u128) -> Option<String>
    decreases channels.len(),
{
    if channels.len() == 0 {
        None
    } else if channels.last().0 == id {
        Some(channels.last().1)
    } else {
        channel_by_id(channels.drop_last(), id)
    }
}

/// Whether a result shows this message, with its author (a deleted user when
/// the author is unknown) and its channel's name (`unknown` when missing).
pub open spec fn result_matches(
    r: SearchResult,
    m: MessageHit,
    users: Seq<UserRecord>,
    channels: Seq<(u128, String)>,
) -> bool {
    &&& r.id == m.id
    &&& r.channel_id == m.channel_id
    &&& r.content == m.content
    &&& r.created_at == m.created_at
    &&& match user_by_id(users, m.user_id) {
        Some(u) => r.author.id == u.id && r.author.username == u.username
            && r.author.display_name == u.display_name && r.author.avatar_url == u.avatar_url,
        None => r.author.id == m.user_id && r.author.username@ == "deleted"@
            && r.author.display_name@ == "Deleted User"@ && r.author.avatar_url is None,
    }
    &&& match channel_by_id(channels, m.channel_id) {
        Some(n) => r.channel_name == n,
        None => r.channel_name@ == "unknown"@,
    }
}

fn find_user(users: &Vec<UserRecord>, id: u128) -> (r: Option<usize>)
    ensures
        match r {
            Some(i) => i < users@.len() && user_by_id(users@, id) == Some(users@[i as int]),
            None => user_by_id(users@, id) is None,
        },
{
    let mut i = users.len();
    assert(users@.subrange(0, i as int) =~= users@);
    while i > 0
        invariant
            i <= users@.len(),
            user_by_id(users@, id) == user_by_id(users@.subrange(0, i as int), id),
        decreases i,
    {
        let ghost pre = users@.subrange(0, i as int);
        assert(pre.drop_last() =~= users@.subrange(0, i - 1));
        if users[i - 1].id == id {
            return Some(i - 1);
        }
        i -= 1;
    }
    None
}

fn find_channel(channels: &Vec<(u128, String)>, id: u128) -> (r: Option<usize>)
    ensures
        match r {
            Some(i) => i < channels@.len() && channel_by_id(channels@, id) == Some(
                channels@[i as int].1,
            ),
            None => channel_by_id(channels@, id) is None,
        },
{
    let mut i = channels.len();
    assert(channels@.subrange(0, i as int) =~= channels@);
    while i > 0
        invariant
            i <= channels@.len(),
            channel_by_id(channels@, id) == channel_by_id(channels@.subrange(0, i as int), id),
        decreases i,
    {
        let ghost pre = channels@.subrange(0, i as int);
        assert(pre.drop_last() =~= channels@.subrange(0, i - 1));
        if channels[i - 1].0 == id {
            return Some(i - 1);
        }
        i -= 1;
    }
    None
}

/// The results of a search, in the order of the found messages, each shown
/// with its author and its channel's name.
pub fn assemble_results(
    messages: Vec<MessageHit>,
    users: &Vec<UserRecord>,
    channels: &Vec<(u128, String)>,
) -> (r: Vec<SearchResult>)
    ensures
        r@.len() == messages@.len(),
        forall|i: int|
            0 <= i < r@.len() ==> result_matches(#[trigger] r@[i], messages@[i], users@, channels@),
{
    let mut out: Vec<SearchResult> = Vec::new();
    let mut i: usize = 0;
    proof {
        assert(users@.subrange(0, users@.len() as int) =~= users@);
    }
    while i < messages.len()
        invariant
            i <= messages@.len(),
            out@.len() == i,
            forall|k: int|
                0 <= k < i ==> result_matches(#[trigger] out@[k], messages@[k], users@, channels@),
        decreases messages@.len() - i,
    {
        let m = &messages[i];
        let author = match find_user(users, m.user_id) {
            Some(j) => {
                let u = &users[j];
                SearchAuthor {
                    id: u.id,
                    username: u.username.clone(),
                    display_name: u.display_name.clone(),
                    avatar_url: u.avatar_url.clone(),
                }
            },
            None => SearchAuthor {
                id: m.user_id,
                username: "deleted".to_owned(),
                display_name: "Deleted User".to_owned(),
                avatar_url: None,
            },
        };
        let channel_name = match find_channel(channels, m.channel_id) {
            Some(j) => channels[j].1.clone(),
            None => "unknown".to_owned(),
        };
        out.push(
            SearchResult {
                id: m.id,
                channel_id: m.channel_id,
                channel_name,
                author,
                content: m.content.clone(),
                created_at: m.created_at,
            },
        );
        i += 1;
    }
    out
}

} // verus!
