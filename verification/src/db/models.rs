//! Enumerations and small records of the user and channel model.

use vstd::prelude::*;

verus! {

/// Authentication method.
#[derive(Debug, Clone, Copy, PartialEq, Eq, Structural)]
pub enum AuthMethod {
    /// Local password authentication.
    Local,
    /// `OpenID` Connect authentication.
    Oidc,
}

/// User online status.
#[derive(Debug, Clone, Copy, PartialEq, Eq, Structural)]
pub enum UserStatus {
    /// User is actively using the app.
    Online,
    /// User is idle.
    Away,
    /// User is busy (do not disturb).
    Busy,
    /// User is offline.
    Offline,
}

/// Channel type.
#[derive(Debug, Clone, Copy, PartialEq, Eq, Structural)]
pub enum ChannelType {
    /// Text chat channel.
    Text,
    /// Voice channel.
    Voice,
    /// Direct message channel.
    Dm,
}

/// Default value of a channel's maximum concurrent screen shares.
pub fn default_max_screen_shares() -> (r: i32)
    ensures
        r == 1,
{
    1
}

/// Public-facing OIDC provider info (no secrets).
#[derive(Debug, Clone)]
pub struct PublicOidcProvider {
    /// URL-safe slug.
    pub slug: String,
    /// Human-readable display name.
    pub display_name: String,
    /// Lucide icon hint.
    pub icon_hint: Option<String>,
}

/// Auth methods configuration.
#[derive(Debug, Clone, Copy, PartialEq, Eq, Structural)]
pub struct AuthMethodsConfig {
    /// Whether local (password) auth is allowed.
    pub local: bool,
    /// Whether OIDC/SSO auth is allowed.
    pub oidc: bool,
}

impl Default for AuthMethodsConfig {
    /// Local password login on, SSO off.
    fn default() -> (r: Self)
        ensures
            r.local,
            !r.oidc,
    {
        AuthMethodsConfig { local: true, oidc: false }
    }
}

} // verus!
