//! The decisions of the discovery handlers: whether discovery is on, the
//! rules of a listing query, its page and filters, and the answer to a join.

use vstd::prelude::*;

use super::types::{DiscoverQuery, DiscoverSort, JoinDiscoverableResponse};
use crate::pages::handlers::byte_len;
use crate::text::{push_str, trim_str, trimmed};

verus! {

/// A refused discovery request.
#[derive(Debug, Clone)]
pub enum DiscoveryError {
    Disabled,
    NotFound,
    Validation(String),
    Database(String),
}

/// The HTTP status, error code and message that answer a refused discovery
/// request.
pub open spec fn discovery_error_response(e: DiscoveryError) -> (u16, Seq<char>, Seq<char>) {
    match e {
        DiscoveryError::Disabled => (
            404,
            "DISCOVERY_DISABLED"@,
            "Guild discovery is not enabled on this server"@,
        ),
        DiscoveryError::NotFound => (404, "GUILD_NOT_FOUND"@, "Guild not found or not discoverable"@),
        DiscoveryError::Validation(m) => (400, "VALIDATION_ERROR"@, m@),
        DiscoveryError::Database(_) => (500, "INTERNAL_ERROR"@, "Database error"@),
    }
}

/// The text of a discovery error.
pub open spec fn discovery_error_text(e: DiscoveryError) -> Seq<char> {
    match e {
        DiscoveryError::Disabled => "Guild discovery is not enabled on this server"@,
        DiscoveryError::NotFound => "Guild not found or not discoverable"@,
        DiscoveryError::Validation(m) => "Validation error: "@ + m@,
        DiscoveryError::Database(m) => "Database error: "@ + m@,
    }
}

impl DiscoveryError {
    /// The HTTP status, error code and message of the answer.
    pub fn response(&self) -> (r: (u16, &'static str, String))
        ensures
            (r.0, r.1@, r.2@) == discovery_error_response(*self),
    {
        match self {
            DiscoveryError::Disabled => (
                404,
                "DISCOVERY_DISABLED",
                "Guild discovery is not enabled on this server".to_owned(),
            ),
            DiscoveryError::NotFound => (
                404,
                "GUILD_NOT_FOUND",
                "Guild not found or not discoverable".to_owned(),
            ),
            DiscoveryError::Validation(m) => (400, "VALIDATION_ERROR", m.clone()),
            DiscoveryError::Database(_) => (500, "INTERNAL_ERROR", "Database error".to_owned()),
        }
    }

    /// The error's text.
    pub fn message(&self) -> (r: String)
        ensures
            r@ == discovery_error_text(*self),
    {
        match self {
            DiscoveryError::Disabled => "Guild discovery is not enabled on this server".to_owned(),
            DiscoveryError::NotFound => "Guild not found or not discoverable".to_owned(),
            DiscoveryError::Validation(m) => {
                let mut out = "Validation error: ".to_owned();
                push_str(&mut out, m.as_str());
                out
            },
            DiscoveryError::Database(m) => {
                let mut out = "Database error: ".to_owned();
                push_str(&mut out, m.as_str());
                out
            },
        }
    }
}

/// Discovery answers only when the server enables it.
pub fn require_discovery_enabled(enabled: bool) -> (r: Result<(), DiscoveryError>)
    ensures
        enabled ==> r is Ok,
        !enabled ==> r matches Err(DiscoveryError::Disabled),
{
    if enabled {
        Ok(())
    } else {
        Err(DiscoveryError::Disabled)
    }
}

/// The refusal of a listing query, if any: a search of more than 200 bytes,
/// more than 10 tags, or a tag of more than 32 bytes.
pub open spec fn discover_query_violation(
    q: Option<Seq<char>>,
    tags: Option<Seq<Seq<char>>>,
) -> Option<Seq<char>> {
    if q matches Some(s) && byte_len(s) > 200 {
        Some("Search query too long (max 200 characters)"@)
    } else if tags matches Some(ts) && ts.len() > 10 {
        Some("Maximum 10 tags for filtering"@)
    } else if tags matches Some(ts) && exists|i: int|
        0 <= i < ts.len() && byte_len(#[trigger] ts[i]) > 32 {
        Some("Each filter tag must be at most 32 characters"@)
    } else {
        None
    }
}

/// The tags of a query, as character sequences.
pub open spec fn tags_view(tags: Option<Vec<String>>) -> Option<Seq<Seq<char>>> {
    match tags {
        Some(v) => Some(v@.map_values(|t: String| t@)),
        None => None,
    }
}

/// What a listing query selects: its search text (trimmed, when not blank),
/// its tags (when any), its order, and its page.
#[derive(Debug, Clone)]
pub struct DiscoverPlan {
    pub search: Option<String>,
    pub tags: Option<Vec<String>>,
    pub sort: DiscoverSort,
    pub limit: i64,
    pub offset: i64,
}

/// A value clamped into `[lo, hi]`.
pub open spec fn clamp_spec(v: i64, lo: i64, hi: i64) -> i64 {
    if v < lo {
        lo
    } else if v > hi {
        hi
    } else {
        v
    }
}

fn clamp(v: i64, lo: i64, hi: i64) -> (r: i64)
    ensures
        r == clamp_spec(v, lo, hi),
{
    if v < lo {
        lo
    } else if v > hi {
        hi
    } else {
        v
    }
}

fn all_tags_short(tags: &Vec<String>) -> (r: bool)
    ensures
        r == forall|i: int| 0 <= i < tags@.len() ==> byte_len(#[trigger] tags@[i]@) <= 32,
{
    let mut i: usize = 0;
    while i < tags.len()
        invariant
            i <= tags@.len(),
            forall|k: int| 0 <= k < i ==> byte_len(#[trigger] tags@[k]@) <= 32,
        decreases tags@.len() - i,
    {
        if tags[i].as_str().len() > 32 {
            return false;
        }
        i += 1;
    }
    true
}

/// Checks a listing query and works out what it selects: a page of 1 to 50
/// guilds (20 by default) from an offset of 0 to 10000 (0 by default).
pub fn plan_discovery(query: DiscoverQuery) -> (r: Result<DiscoverPlan, DiscoveryError>)
    ensures
        ({
            let qv = match query.q {
                Some(s) => Some(s@),
                None => None,
            };
            let tv = tags_view(query.tags);
            match discover_query_violation(qv, tv) {
                Some(m) => r matches Err(DiscoveryError::Validation(e)) && e@ == m,
                None => r matches Ok(plan) && plan.sort == query.sort && plan.limit == clamp_spec(
                    match query.limit {
                        Some(l) => l,
                        None => 20,
                    },
                    1,
                    50,
                ) && plan.offset == clamp_spec(
                    match query.offset {
                        Some(o) => o,
                        None => 0,
                    },
                    0,
                    10_000,
                ) && match qv {
                    Some(s) => if trimmed(s).len() > 0 {
                        plan.search matches Some(t) && t@ == trimmed(s)
                    } else {
                        plan.search is None
                    },
                    None => plan.search is None,
                } && match query.tags {
                    Some(ts) => if ts@.len() > 0 {
                        plan.tags == Some(ts)
                    } else {
                        plan.tags is None
                    },
                    None => plan.tags is None,
                },
            }
        }),
{
    if let Some(q) = &query.q {
        if q.as_str().len() > 200 {
            return Err(
                DiscoveryError::Validation("Search query too long (max 200 characters)".to_owned()),
            );
        }
    }
    if let Some(tags) = &query.tags {
        if tags.len() > 10 {
            return Err(DiscoveryError::Validation("Maximum 10 tags for filtering".to_owned()));
        }
        if !all_tags_short(tags) {
            proof {
                let ts = tags@.map_values(|t: String| t@);
                let i = choose|i: int| 0 <= i < tags@.len() && byte_len(#[trigger] tags@[i]@) > 32;
                assert(byte_len(ts[i]) > 32);
            }
            return Err(
                DiscoveryError::Validation(
                    "Each filter tag must be at most 32 characters".to_owned(),
                ),
            );
        }
        proof {
            let ts = tags@.map_values(|t: String| t@);
            assert forall|i: int| 0 <= i < ts.len() implies byte_len(#[trigger] ts[i]) <= 32 by {
                assert(ts[i] == tags@[i]@);
            }
        }
    }
    let limit = clamp(
        match query.limit {
            Some(l) => l,
            None => 20,
        },
        1,
        50,
    );
    let offset = clamp(
        match query.offset {
            Some(o) => o,
            None => 0,
        },
        0,
        10_000,
    );
    let search = match &query.q {
        Some(q) => {
            let t = trim_str(q.as_str());
            if t.is_empty() {
                None
            } else {
                Some(t.to_owned())
            }
        },
        None => None,
    };
    let tags = match query.tags {
        Some(ts) => if ts.len() > 0 {
            Some(ts)
        } else {
            None
        },
        None => None,
    };
    Ok(DiscoverPlan { search, tags, sort: query.sort, limit, offset })
}

/// The total number of matching guilds, read from the first row of the page
/// (0 when the page is empty).
pub fn discover_total(first_row_total: Option<i64>) -> (r: i64)
    ensures
        r == match first_row_total {
            Some(t) => t,
            None => 0,
        },
{
    match first_row_total {
        Some(t) => t,
        None => 0,
    }
}

/// A join needs a guild that is discoverable and not suspended; `guild_name`
/// is its name, `None` when there is no such guild.
pub fn require_discoverable(guild_name: Option<String>) -> (r: Result<String, DiscoveryError>)
    ensures
        guild_name is None ==> r matches Err(DiscoveryError::NotFound),
        guild_name matches Some(n) ==> r == Ok::<String, DiscoveryError>(n),
{
    match guild_name {
        None => Err(DiscoveryError::NotFound),
        Some(n) => Ok(n),
    }
}

/// The answer to a join: when the insertion added no row, the user was a
/// member already.
pub fn join_discoverable_response(guild_id: u128, guild_name: String, rows_affected: u64) -> (r:
    JoinDiscoverableResponse)
    ensures
        r.guild_id == guild_id,
        r.guild_name == guild_name,
        r.already_member == (rows_affected == 0),
{
    JoinDiscoverableResponse { guild_id, guild_name, already_member: rows_affected == 0 }
}

} // verus!
