//! Permission data model: roles, channel overrides and request bodies.
//!
//! Identifiers are 128-bit UUID values and timestamps are milliseconds since
//! the Unix epoch, so the permission logic works on plain values.

use vstd::prelude::*;

use super::guild::GuildPermissions;

verus! {

/// Guild role with permissions.
#[derive(Debug, Clone)]
pub struct GuildRole {
    pub id: u128,
    pub guild_id: u128,
    pub name: String,
    pub color: Option<String>,
    pub permissions: GuildPermissions,
    /// Lower number = higher rank.
    pub position: i32,
    pub is_default: bool,
    pub created_at: i64,
    pub updated_at: i64,
}

/// Channel permission override attached to a role.
#[derive(Debug, Clone)]
pub struct ChannelOverride {
    pub id: u128,
    pub channel_id: u128,
    pub role_id: u128,
    pub allow_permissions: GuildPermissions,
    pub deny_permissions: GuildPermissions,
}

/// Request body to create a guild role.
#[derive(Debug)]
pub struct CreateGuildRoleRequest {
    pub name: String,
    pub color: Option<String>,
    pub permissions: Option<u64>,
    pub position: Option<i32>,
}

/// Request body to update a guild role.
#[derive(Debug)]
pub struct UpdateGuildRoleRequest {
    pub name: Option<String>,
    pub color: Option<String>,
    pub permissions: Option<u64>,
    pub position: Option<i32>,
}

/// Request body to set a channel override.
#[derive(Debug)]
pub struct SetChannelOverrideRequest {
    pub allow: Option<u64>,
    pub deny: Option<u64>,
}

/// Request body to elevate a session with an MFA code.
#[derive(Debug)]
pub struct ElevateSessionRequest {
    pub mfa_code: String,
    pub reason: Option<String>,
}

} // verus!
