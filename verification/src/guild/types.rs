//! Guild request and response types, and the field rules of the requests.

use vstd::prelude::*;

use crate::validation::{
    length_within, length_within_spec, violation_if, violations_view, FieldViolation,
};

verus! {

/// The message of the guild name rule.
pub open spec fn guild_name_message() -> Seq<char> {
    "Name must be 2-100 characters"@
}

/// The message of the guild description rule.
pub open spec fn guild_description_message() -> Seq<char> {
    "Description must be at most 1000 characters"@
}

/// Whether an optional text is absent or within the bounds.
pub open spec fn optional_within(s: Option<String>, min: Option<u64>, max: Option<u64>) -> bool {
    match s {
        Some(t) => length_within_spec(t@, min, max),
        None => true,
    }
}

fn check_optional(s: &Option<String>, min: Option<u64>, max: Option<u64>) -> (r: bool)
    ensures
        r == optional_within(*s, min, max),
{
    match s {
        Some(t) => length_within(t.as_str(), min, max),
        None => true,
    }
}

/// Request to create a guild.
#[derive(Debug, Clone)]
pub struct CreateGuildRequest {
    pub name: String,
    pub description: Option<String>,
}

impl CreateGuildRequest {
    /// The rules this request breaks, in field order: a name of 2 to 100
    /// characters, a description of at most 1000.
    pub open spec fn violations_spec(&self) -> Seq<(Seq<char>, Seq<char>)> {
        violation_if(
            !length_within_spec(self.name@, Some(2), Some(100)),
            "name"@,
            guild_name_message(),
        ) + violation_if(
            !optional_within(self.description, None, Some(1000)),
            "description"@,
            guild_description_message(),
        )
    }

    /// The rules this request breaks, in field order.
    pub fn validate(&self) -> (r: Vec<FieldViolation>)
        ensures
            violations_view(r@) == self.violations_spec(),
    {
        let mut out: Vec<FieldViolation> = Vec::new();
        if !length_within(self.name.as_str(), Some(2), Some(100)) {
            out.push(FieldViolation { field: "name", message: "Name must be 2-100 characters" });
        }
        if !check_optional(&self.description, None, Some(1000)) {
            out.push(
                FieldViolation {
                    field: "description",
                    message: "Description must be at most 1000 characters",
                },
            );
        }
        assert(violations_view(out@) =~= self.violations_spec());
        out
    }
}

/// Request to update a guild; absent fields are left as they are.
#[derive(Debug, Clone)]
pub struct UpdateGuildRequest {
    pub name: Option<String>,
    pub description: Option<String>,
    pub icon_url: Option<String>,
}

impl UpdateGuildRequest {
    /// The rules this request breaks, in field order: a name, when given, of
    /// 2 to 100 characters; a description, when given, of at most 1000.
    pub open spec fn violations_spec(&self) -> Seq<(Seq<char>, Seq<char>)> {
        violation_if(
            !optional_within(self.name, Some(2), Some(100)),
            "name"@,
            guild_name_message(),
        ) + violation_if(
            !optional_within(self.description, None, Some(1000)),
            "description"@,
            guild_description_message(),
        )
    }

    /// The rules this request breaks, in field order.
    pub fn validate(&self) -> (r: Vec<FieldViolation>)
        ensures
            violations_view(r@) == self.violations_spec(),
    {
        let mut out: Vec<FieldViolation> = Vec::new();
        if !check_optional(&self.name, Some(2), Some(100)) {
            out.push(FieldViolation { field: "name", message: "Name must be 2-100 characters" });
        }
        if !check_optional(&self.description, None, Some(1000)) {
            out.push(
                FieldViolation {
                    field: "description",
                    message: "Description must be at most 1000 characters",
                },
            );
        }
        assert(violations_view(out@) =~= self.violations_spec());
        out
    }
}

/// Request to join a guild by invite code.
#[derive(Debug, Clone)]
pub struct JoinGuildRequest {
    pub invite_code: String,
}

/// Request to create an invite.
#[derive(Debug, Clone)]
pub struct CreateInviteRequest {
    /// Expiry: "30m", "1h", "1d", "7d" or "never".
    pub expires_in: String,
}

/// Request to create a guild role.
#[derive(Debug, Clone)]
pub struct CreateRoleRequest {
    pub name: String,
    pub color: Option<String>,
    pub permissions: Option<u64>,
}

impl CreateRoleRequest {
    /// The rules this request breaks: a role name of 1 to 64 characters.
    pub open spec fn violations_spec(&self) -> Seq<(Seq<char>, Seq<char>)> {
        violation_if(
            !length_within_spec(self.name@, Some(1), Some(64)),
            "name"@,
            "Role name must be 1-64 characters"@,
        )
    }

    /// The rules this request breaks.
    pub fn validate(&self) -> (r: Vec<FieldViolation>)
        ensures
            violations_view(r@) == self.violations_spec(),
    {
        let mut out: Vec<FieldViolation> = Vec::new();
        if !length_within(self.name.as_str(), Some(1), Some(64)) {
            out.push(
                FieldViolation { field: "name", message: "Role name must be 1-64 characters" },
            );
        }
        assert(violations_view(out@) =~= self.violations_spec());
        out
    }
}

/// Request to update a guild role; absent fields are left as they are.
#[derive(Debug, Clone)]
pub struct UpdateRoleRequest {
    pub name: Option<String>,
    pub color: Option<String>,
    pub permissions: Option<u64>,
    pub position: Option<i32>,
}

/// The rule of an emoji name: 2 to 32 characters.
pub open spec fn emoji_name_violations(name: Seq<char>) -> Seq<(Seq<char>, Seq<char>)> {
    violation_if(
        !length_within_spec(name, Some(2), Some(32)),
        "name"@,
        "Name must be 2-32 characters"@,
    )
}

fn validate_emoji_name(name: &str) -> (r: Vec<FieldViolation>)
    ensures
        violations_view(r@) == emoji_name_violations(name@),
{
    let mut out: Vec<FieldViolation> = Vec::new();
    if !length_within(name, Some(2), Some(32)) {
        out.push(FieldViolation { field: "name", message: "Name must be 2-32 characters" });
    }
    assert(violations_view(out@) =~= emoji_name_violations(name@));
    out
}

/// Request to create a custom emoji.
#[derive(Debug, Clone)]
pub struct CreateEmojiRequest {
    pub name: String,
}

impl CreateEmojiRequest {
    /// The rules this request breaks: a name of 2 to 32 characters.
    pub fn validate(&self) -> (r: Vec<FieldViolation>)
        ensures
            violations_view(r@) == emoji_name_violations(self.name@),
    {
        validate_emoji_name(self.name.as_str())
    }
}

/// Request to rename a custom emoji.
#[derive(Debug, Clone)]
pub struct UpdateEmojiRequest {
    pub name: String,
}

impl UpdateEmojiRequest {
    /// The rules this request breaks: a name of 2 to 32 characters.
    pub fn validate(&self) -> (r: Vec<FieldViolation>)
        ensures
            violations_view(r@) == emoji_name_violations(self.name@),
    {
        validate_emoji_name(self.name.as_str())
    }
}

/// Guild-level settings.
#[derive(Debug, Clone, Copy, PartialEq, Eq)]
pub struct GuildSettings {
    pub threads_enabled: bool,
}

/// Request to update guild settings; an absent field is left as it is.
#[derive(Debug, Clone, Copy, PartialEq, Eq)]
pub struct UpdateGuildSettingsRequest {
    pub threads_enabled: Option<bool>,
}

/// A slash command available in a guild, from an installed bot.
#[derive(Debug, Clone)]
pub struct GuildCommandInfo {
    pub name: String,
    pub description: String,
    pub bot_name: String,
}

} // verus!
