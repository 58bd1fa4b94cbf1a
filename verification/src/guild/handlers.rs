//! The decisions of the guild management handlers: who may change a guild,
//! which updates a request asks for, and how each refusal is answered.

use vstd::prelude::*;

use super::types::{CreateGuildRequest, UpdateGuildRequest};
use crate::permissions::resolver::{permission_error_text, PermissionError};
use crate::text::push_str;
use crate::validation::{violations_text, FieldViolation};

verus! {

/// A refused guild request.
#[derive(Debug, Clone)]
pub enum GuildError {
    NotFound,
    Forbidden,
    Permission(PermissionError),
    Validation(String),
    LimitExceeded(String),
    Database(String),
}

/// The HTTP status, error code and message of a refused guild request.
pub open spec fn guild_error_response(e: GuildError) -> (u16, Seq<char>, Seq<char>) {
    match e {
        GuildError::NotFound => (404, "GUILD_NOT_FOUND"@, "Guild not found"@),
        GuildError::Forbidden => (403, "FORBIDDEN"@, "Access denied"@),
        GuildError::Permission(p) => (403, "PERMISSION_DENIED"@, permission_error_text(p)),
        GuildError::Validation(m) => (400, "VALIDATION_ERROR"@, m@),
        GuildError::LimitExceeded(m) => (403, "LIMIT_EXCEEDED"@, m@),
        GuildError::Database(_) => (500, "INTERNAL_ERROR"@, "Database error"@),
    }
}

impl GuildError {
    /// The HTTP status, error code and message that answer this refusal.
    pub fn response(&self) -> (r: (u16, String, String))
        ensures
            (r.0, r.1@, r.2@) == guild_error_response(*self),
    {
        match self {
            GuildError::NotFound => (404, "GUILD_NOT_FOUND".to_owned(), "Guild not found".to_owned()),
            GuildError::Forbidden => (403, "FORBIDDEN".to_owned(), "Access denied".to_owned()),
            GuildError::Permission(p) => (403, "PERMISSION_DENIED".to_owned(), p.message()),
            GuildError::Validation(m) => (400, "VALIDATION_ERROR".to_owned(), m.clone()),
            GuildError::LimitExceeded(m) => (403, "LIMIT_EXCEEDED".to_owned(), m.clone()),
            GuildError::Database(_) => (
                500,
                "INTERNAL_ERROR".to_owned(),
                "Database error".to_owned(),
            ),
        }
    }
}

/// The refusal of a request body that breaks field rules: a validation error
/// with the rendered violations; `Ok` when none is broken.
pub fn reject_violations(violations: Vec<FieldViolation>) -> (r: Result<(), GuildError>)
    ensures
        violations@.len() == 0 <==> r is Ok,
        violations@.len() == 1 ==> (r matches Err(GuildError::Validation(m)) && m@
            == violations@[0].field@ + ": "@ + violations@[0].message@),
        violations@.len() > 1 ==> r matches Err(GuildError::Validation(_)),
{
    if violations.len() == 0 {
        Ok(())
    } else {
        Err(GuildError::Validation(violations_text(&violations)))
    }
}

/// Validates a guild creation request.
pub fn check_create_guild(req: &CreateGuildRequest) -> (r: Result<(), GuildError>)
    ensures
        r is Ok <==> req.violations_spec().len() == 0,
        req.violations_spec().len() == 1 ==> (r matches Err(GuildError::Validation(m)) && m@
            == req.violations_spec()[0].0 + ": "@ + req.violations_spec()[0].1),
{
    reject_violations(req.validate())
}

/// Validates a guild update request.
pub fn check_update_guild(req: &UpdateGuildRequest) -> (r: Result<(), GuildError>)
    ensures
        r is Ok <==> req.violations_spec().len() == 0,
        req.violations_spec().len() == 1 ==> (r matches Err(GuildError::Validation(m)) && m@
            == req.violations_spec()[0].0 + ": "@ + req.violations_spec()[0].1),
{
    reject_violations(req.validate())
}

/// Only a guild's owner may manage it: `owner` is the looked-up owner, `None`
/// when the guild does not exist.
pub fn require_owner(owner: Option<u128>, user_id: u128) -> (r: Result<u128, GuildError>)
    ensures
        match owner {
            None => r matches Err(GuildError::NotFound),
            Some(o) => if o == user_id {
                r == Ok::<u128, GuildError>(o)
            } else {
                r matches Err(GuildError::Forbidden)
            },
        },
{
    match owner {
        None => Err(GuildError::NotFound),
        Some(o) => if o == user_id {
            Ok(o)
        } else {
            Err(GuildError::Forbidden)
        },
    }
}

/// Reading a guild's details, members or channels is for its members.
pub fn require_member(is_member: bool) -> (r: Result<(), GuildError>)
    ensures
        is_member <==> r is Ok,
        !is_member ==> r matches Err(GuildError::Forbidden),
{
    if is_member {
        Ok(())
    } else {
        Err(GuildError::Forbidden)
    }
}

/// A member may leave a guild unless they own it.
pub fn check_leave(is_member: bool, owner_id: u128, user_id: u128) -> (r: Result<(), GuildError>)
    ensures
        !is_member ==> r matches Err(GuildError::NotFound),
        is_member && owner_id == user_id ==> (r matches Err(GuildError::Validation(m)) && m@
            == "Guild owner must transfer ownership before leaving"@),
        is_member && owner_id != user_id ==> r is Ok,
{
    if !is_member {
        return Err(GuildError::NotFound);
    }
    if owner_id == user_id {
        return Err(
            GuildError::Validation("Guild owner must transfer ownership before leaving".to_owned()),
        );
    }
    Ok(())
}

/// The owner cannot kick themself.
pub fn check_kick_target(actor_id: u128, target_id: u128) -> (r: Result<(), GuildError>)
    ensures
        actor_id == target_id ==> (r matches Err(GuildError::Validation(m)) && m@
            == "Cannot kick yourself from the guild"@),
        actor_id != target_id ==> r is Ok,
{
    if actor_id == target_id {
        Err(GuildError::Validation("Cannot kick yourself from the guild".to_owned()))
    } else {
        Ok(())
    }
}

/// A removal that touched no row removed nothing: the target was not found.
pub fn require_rows_affected(rows_affected: u64) -> (r: Result<(), GuildError>)
    ensures
        rows_affected == 0 ==> r matches Err(GuildError::NotFound),
        rows_affected > 0 ==> r is Ok,
{
    if rows_affected == 0 {
        Err(GuildError::NotFound)
    } else {
        Ok(())
    }
}

/// The `SET` clause of a guild update: one `column = $n` per given field, in
/// the order name, description, icon URL, numbered from `$2` (`$1` is the
/// guild's ID).
pub open spec fn update_set_clause(has_name: bool, has_description: bool, has_icon: bool) -> Seq<
    Seq<char>,
> {
    let a: Seq<Seq<char>> = if has_name {
        seq!["name"@]
    } else {
        seq![]
    };
    let b: Seq<Seq<char>> = if has_description {
        a.push("description"@)
    } else {
        a
    };
    if has_icon {
        b.push("icon_url"@)
    } else {
        b
    }
}

/// The text of a `SET` clause: `col = $2, col = $3, ...`.
pub open spec fn set_clause_text(columns: Seq<Seq<char>>) -> Seq<char>
    decreases columns.len(),
{
    if columns.len() == 0 {
        Seq::empty()
    } else if columns.len() == 1 {
        columns[0] + " = $2"@
    } else {
        set_clause_text(columns.drop_last()) + ", "@ + columns.last() + " = $"@ + placeholder_digit(
            columns.len() as int + 1,
        )
    }
}

/// The decimal text of a small placeholder number.
pub open spec fn placeholder_digit(n: int) -> Seq<char> {
    seq![((n + 48) as u32) as char]
}

fn push_assignment(out: &mut String, column: &str, n: u8)
    requires
        2 <= n <= 4,
    ensures
        final(out)@ == old(out)@ + column@ + " = $"@ + placeholder_digit(n as int),
{
    push_str(out, column);
    push_str(out, " = $");
    let c = if n == 2 {
        '2'
    } else if n == 3 {
        '3'
    } else {
        '4'
    };
    crate::text::push_char(out, c);
    assert(seq![c] =~= placeholder_digit(n as int));
}

/// The `SET` clause of an update request, `None` when it changes nothing (the
/// guild is then returned as it is).
pub fn update_guild_set_clause(req: &UpdateGuildRequest) -> (r: Option<String>)
    ensures
        ({
            let cols = update_set_clause(
                req.name is Some,
                req.description is Some,
                req.icon_url is Some,
            );
            &&& cols.len() == 0 <==> r is None
            &&& r matches Some(s) ==> s@ == set_clause_text(cols)
        }),
{
    let ghost cols = update_set_clause(
        req.name is Some,
        req.description is Some,
        req.icon_url is Some,
    );
    let mut out = String::new();
    let mut n: u8 = 2;
    let ghost mut done: Seq<Seq<char>> = seq![];
    proof {
        reveal_strlit(" = $2");
        reveal_strlit(" = $");
        reveal_strlit(", ");
    }
    if req.name.is_some() {
        push_assignment(&mut out, "name", n);
        proof {
            done = done.push("name"@);
            assert(out@ =~= set_clause_text(done));
        }
        n = n + 1;
    }
    if req.description.is_some() {
        if n > 2 {
            push_str(&mut out, ", ");
        }
        push_assignment(&mut out, "description", n);
        proof {
            done = done.push("description"@);
            assert(done.drop_last() =~= if req.name is Some { seq!["name"@] } else { seq![] });
            assert(out@ =~= set_clause_text(done));
        }
        n = n + 1;
    }
    if req.icon_url.is_some() {
        if n > 2 {
            push_str(&mut out, ", ");
        }
        push_assignment(&mut out, "icon_url", n);
        proof {
            let prev = done;
            done = done.push("icon_url"@);
            assert(done.drop_last() =~= prev);
            assert(out@ =~= set_clause_text(done));
        }
        n = n + 1;
    }
    assert(done =~= cols);
    if n == 2 {
        None
    } else {
        Some(out)
    }
}

/// The new place of a channel in a reorder request.
#[derive(Debug, Clone)]
pub struct ChannelPosition {
    pub id: u128,
    pub position: i32,
    pub category_id: Option<u128>,
}

/// Request to reorder the channels of a guild.
#[derive(Debug, Clone)]
pub struct ReorderChannelsRequest {
    pub channels: Vec<ChannelPosition>,
}

/// The refusal when the permission check of a channel reorder fails: a
/// caller outside the guild is simply forbidden, any other failure keeps
/// its permission error.
pub fn channel_permission_refusal(e: PermissionError) -> (r: GuildError)
    ensures
        r == (if e is NotGuildMember {
            GuildError::Forbidden
        } else {
            GuildError::Permission(e)
        }),
{
    match e {
        PermissionError::NotGuildMember => GuildError::Forbidden,
        other => GuildError::Permission(other),
    }
}

} // verus!
