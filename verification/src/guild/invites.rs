//! Guild invites: codes, expiry, the active-invite quota and the decisions of
//! joining a guild by invite.

use vstd::prelude::*;

use super::handlers::GuildError;
use crate::text::{decimal, push_char, push_decimal, push_str, str_eq};

verus! {

/// Length of an invite code.
pub const INVITE_CODE_LENGTH: usize = 8;

/// Maximum number of active invites per guild.
pub const MAX_ACTIVE_INVITES: i64 = 10;

/// How many times a colliding invite code is regenerated.
pub const MAX_CODE_ATTEMPTS: u32 = 5;

/// The characters of an invite code: ASCII letters and digits.
pub open spec fn is_invite_char(c: char) -> bool {
    ('A' <= c && c <= 'Z') || ('a' <= c && c <= 'z') || ('0' <= c && c <= '9')
}

/// The 62 characters an invite code is drawn from, in index order: `A`-`Z`,
/// `a`-`z`, `0`-`9`.
pub open spec fn invite_charset_spec() -> Seq<char> {
    seq![
        'A', 'B', 'C', 'D', 'E', 'F', 'G', 'H', 'I', 'J', 'K', 'L', 'M', 'N', 'O', 'P', 'Q', 'R',
        'S', 'T', 'U', 'V', 'W', 'X', 'Y', 'Z', 'a', 'b', 'c', 'd', 'e', 'f', 'g', 'h', 'i', 'j',
        'k', 'l', 'm', 'n', 'o', 'p', 'q', 'r', 's', 't', 'u', 'v', 'w', 'x', 'y', 'z', '0', '1',
        '2', '3', '4', '5', '6', '7', '8', '9',
    ]
}

fn invite_charset() -> (r: &'static [char])
    ensures
        r@ == invite_charset_spec(),
{
    &[
        'A', 'B', 'C', 'D', 'E', 'F', 'G', 'H', 'I', 'J', 'K', 'L', 'M', 'N', 'O', 'P', 'Q', 'R',
        'S', 'T', 'U', 'V', 'W', 'X', 'Y', 'Z', 'a', 'b', 'c', 'd', 'e', 'f', 'g', 'h', 'i', 'j',
        'k', 'l', 'm', 'n', 'o', 'p', 'q', 'r', 's', 't', 'u', 'v', 'w', 'x', 'y', 'z', '0', '1',
        '2', '3', '4', '5', '6', '7', '8', '9',
    ]
}

/// `rand::Rng::gen_range(0..bound)` on the thread-local generator: some index
/// below `bound`, drawn at random.
#[verifier::external_body]
fn random_below(bound: usize) -> (r: usize)
    requires
        bound > 0,
    ensures
        r < bound,
{
    rand::Rng::gen_range(&mut rand::thread_rng(), 0..bound)
}

/// The code spelled by indices into the invite character set.
pub open spec fn code_of_indices(indices: Seq<usize>) -> Seq<char> {
    indices.map_values(|i: usize| invite_charset_spec()[i as int])
}

/// Every index names one of the 62 characters.
pub open spec fn indices_in_charset(indices: Seq<usize>) -> bool {
    forall|k: int| 0 <= k < indices.len() ==> #[trigger] indices[k] < 62
}

/// The invite code spelled by indices drawn over the whole character set.
pub fn invite_code_from_indices(indices: &Vec<usize>) -> (r: String)
    requires
        indices_in_charset(indices@),
    ensures
        r@ == code_of_indices(indices@),
{
    let charset = invite_charset();
    let mut code = String::new();
    let mut k: usize = 0;
    while k < indices.len()
        invariant
            k <= indices@.len(),
            charset@ == invite_charset_spec(),
            indices_in_charset(indices@),
            code@ == code_of_indices(indices@.take(k as int)),
        decreases indices@.len() - k,
    {
        let c = charset[indices[k]];
        push_char(&mut code, c);
        assert(indices@.take(k + 1) =~= indices@.take(k as int).push(indices@[k as int]));
        assert(code@ =~= code_of_indices(indices@.take(k + 1)));
        k += 1;
    }
    assert(indices@.take(indices@.len() as int) =~= indices@);
    code
}

/// A random invite code: 8 characters, each drawn at random over the 62
/// ASCII letters and digits.
pub fn generate_invite_code() -> (r: String)
    ensures
        r@.len() == INVITE_CODE_LENGTH,
        forall|i: int| 0 <= i < r@.len() ==> is_invite_char(#[trigger] r@[i]),
        exists|indices: Seq<usize>|
            indices.len() == INVITE_CODE_LENGTH && indices_in_charset(indices) && r@
                == code_of_indices(indices),
{
    let mut indices: Vec<usize> = Vec::new();
    let mut k: usize = 0;
    while k < INVITE_CODE_LENGTH
        invariant
            k <= INVITE_CODE_LENGTH,
            indices@.len() == k,
            indices_in_charset(indices@),
        decreases INVITE_CODE_LENGTH - k,
    {
        let idx = random_below(62);
        indices.push(idx);
        k += 1;
    }
    let code = invite_code_from_indices(&indices);
    assert forall|i: int| 0 <= i < code@.len() implies is_invite_char(#[trigger] code@[i]) by {
        let c = invite_charset_spec();
        assert(code@[i] == c[indices@[i] as int]);
        assert(forall|j: int| 0 <= j < 62 ==> is_invite_char(#[trigger] c[j]));
    }
    code
}

/// The lifetime in seconds of an invite that expires `expires_in` from now:
/// 30 minutes, an hour, a day or a week; `never` gives none, and anything else
/// a week.
pub open spec fn expiry_seconds(expires_in: Seq<char>) -> Option<i64> {
    if expires_in == "30m"@ {
        Some(1800)
    } else if expires_in == "1h"@ {
        Some(3600)
    } else if expires_in == "1d"@ {
        Some(86400)
    } else if expires_in == "7d"@ {
        Some(604800)
    } else if expires_in == "never"@ {
        None
    } else {
        Some(604800)
    }
}

/// Parses an invite's expiry into its lifetime in seconds.
pub fn parse_expiry(expires_in: &str) -> (r: Option<i64>)
    ensures
        r == expiry_seconds(expires_in@),
{
    if str_eq(expires_in, "30m") {
        Some(1800)
    } else if str_eq(expires_in, "1h") {
        Some(3600)
    } else if str_eq(expires_in, "1d") {
        Some(86400)
    } else if str_eq(expires_in, "7d") {
        Some(604800)
    } else if str_eq(expires_in, "never") {
        None
    } else {
        Some(604800)
    }
}

/// When an invite created at `now_ms` (milliseconds since the epoch) expires.
pub fn invite_expires_at(now_ms: i64, expires_in: &str) -> (r: Option<i64>)
    requires
        now_ms <= i64::MAX - 604_800_000,
    ensures
        r == match expiry_seconds(expires_in@) {
            Some(s) => Some((now_ms + s * 1000) as i64),
            None => None::<i64>,
        },
{
    match parse_expiry(expires_in) {
        Some(s) => Some(now_ms + s * 1000),
        None => None,
    }
}

/// A guild keeps at most 10 active invites.
pub fn check_invite_quota(active_count: i64) -> (r: Result<(), GuildError>)
    ensures
        active_count >= MAX_ACTIVE_INVITES ==> (r matches Err(GuildError::Validation(m)) && m@
            == "Maximum 10 active invites per guild"@),
        active_count < MAX_ACTIVE_INVITES ==> r is Ok,
{
    if active_count >= MAX_ACTIVE_INVITES {
        Err(GuildError::Validation("Maximum 10 active invites per guild".to_owned()))
    } else {
        Ok(())
    }
}

/// Whether a freshly generated code is looked up for a collision: only while
/// fewer than 5 codes were regenerated (the last one is kept unchecked).
pub fn invite_code_needs_check(attempts: u32) -> (r: bool)
    ensures
        r == (attempts < MAX_CODE_ATTEMPTS),
{
    attempts < MAX_CODE_ATTEMPTS
}

/// After looking a code up: keep it when free (`None`), otherwise generate a
/// new one and count the attempt.
pub fn invite_code_after_lookup(attempts: u32, taken: bool) -> (r: Option<u32>)
    requires
        attempts < MAX_CODE_ATTEMPTS,
    ensures
        taken ==> r == Some((attempts + 1) as u32),
        !taken ==> r is None,
{
    if taken {
        Some(attempts + 1)
    } else {
        None
    }
}

/// A join needs an invite that exists and has not expired.
pub fn check_invite_found(found: bool) -> (r: Result<(), GuildError>)
    ensures
        found ==> r is Ok,
        !found ==> (r matches Err(GuildError::Validation(m)) && m@
            == "Invalid or expired invite code"@),
{
    if found {
        Ok(())
    } else {
        Err(GuildError::Validation("Invalid or expired invite code".to_owned()))
    }
}

/// A globally banned user cannot join any guild.
pub fn check_not_banned(globally_banned: bool) -> (r: Result<(), GuildError>)
    ensures
        globally_banned ==> r matches Err(GuildError::Forbidden),
        !globally_banned ==> r is Ok,
{
    if globally_banned {
        Err(GuildError::Forbidden)
    } else {
        Ok(())
    }
}

/// The refusal when a guild is full.
pub open spec fn member_limit_message(max_members: i64) -> Seq<char> {
    "Guild has reached the maximum number of members ("@ + decimal(max_members as int) + ")"@
}

/// A guild at its member limit takes no new member.
pub fn check_member_limit(member_count: i64, max_members: i64) -> (r: Result<(), GuildError>)
    ensures
        member_count >= max_members ==> (r matches Err(GuildError::LimitExceeded(m)) && m@
            == member_limit_message(max_members)),
        member_count < max_members ==> r is Ok,
{
    if member_count >= max_members {
        let mut m = "Guild has reached the maximum number of members (".to_owned();
        push_decimal(&mut m, max_members);
        push_str(&mut m, ")");
        Err(GuildError::LimitExceeded(m))
    } else {
        Ok(())
    }
}

/// A stored invite; times are milliseconds since the epoch.
#[derive(Debug, Clone)]
pub struct GuildInvite {
    pub id: u128,
    pub guild_id: u128,
    pub code: String,
    pub created_by: u128,
    pub expires_at: Option<i64>,
    pub use_count: i32,
    pub created_at: i64,
}

/// The answer to a join by invite.
#[derive(Debug, Clone)]
pub struct InviteResponse {
    pub id: u128,
    pub code: String,
    pub guild_id: u128,
    pub guild_name: String,
    pub expires_at: Option<i64>,
    pub use_count: i32,
    pub created_at: i64,
}

/// The answer to a join: the invite with the guild's name, its use count
/// raised by one when this join added a member (`joined`), unchanged when the
/// user was a member already.
pub fn invite_response(invite: GuildInvite, guild_name: String, joined: bool) -> (r:
    InviteResponse)
    requires
        joined ==> invite.use_count < i32::MAX,
    ensures
        r.id == invite.id,
        r.code == invite.code,
        r.guild_id == invite.guild_id,
        r.guild_name == guild_name,
        r.expires_at == invite.expires_at,
        r.created_at == invite.created_at,
        r.use_count == if joined {
            invite.use_count + 1
        } else {
            invite.use_count as int
        },
{
    let use_count = if joined {
        invite.use_count + 1
    } else {
        invite.use_count
    };
    InviteResponse {
        id: invite.id,
        code: invite.code,
        guild_id: invite.guild_id,
        guild_name,
        expires_at: invite.expires_at,
        use_count,
        created_at: invite.created_at,
    }
}

} // verus!
