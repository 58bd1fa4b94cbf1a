//! System-level permissions for platform-wide administrative actions,
//! distinct from guild-specific permissions.

use vstd::prelude::*;

verus! {

/// System-level permission for administrative actions.
#[derive(Debug, Clone, Copy, PartialEq, Eq, Hash, Structural)]
pub enum SystemPermission {
    /// View all guilds on the platform (admin dashboard)
    ViewAllGuilds,
    /// Suspend a guild (disables access without deletion)
    SuspendGuild,
    /// Permanently delete a guild
    DeleteGuild,
    /// Assign or transfer guild ownership
    AssignGuildOwner,
    /// View all users on the platform
    ViewAllUsers,
    /// Ban a user globally (all guilds)
    GlobalBanUser,
    /// View system-wide audit log
    ViewAuditLog,
    /// Send platform-wide announcements
    SendAnnouncement,
    /// Manage system settings and configuration
    ManageSettings,
    /// Use break-glass emergency access
    UseBreakGlass,
    /// Review and approve break-glass access requests
    ReviewBreakGlass,
}

/// Audit-log action name of a permission.
pub open spec fn action_name_text(p: SystemPermission) -> Seq<char> {
    match p {
        SystemPermission::ViewAllGuilds => "view_all_guilds"@,
        SystemPermission::SuspendGuild => "suspend_guild"@,
        SystemPermission::DeleteGuild => "delete_guild"@,
        SystemPermission::AssignGuildOwner => "assign_guild_owner"@,
        SystemPermission::ViewAllUsers => "view_all_users"@,
        SystemPermission::GlobalBanUser => "global_ban_user"@,
        SystemPermission::ViewAuditLog => "view_audit_log"@,
        SystemPermission::SendAnnouncement => "send_announcement"@,
        SystemPermission::ManageSettings => "manage_settings"@,
        SystemPermission::UseBreakGlass => "use_break_glass"@,
        SystemPermission::ReviewBreakGlass => "review_break_glass"@,
    }
}

/// Every system permission, in declaration order.
pub open spec fn all_system_permissions() -> Seq<SystemPermission> {
    seq![
        SystemPermission::ViewAllGuilds,
        SystemPermission::SuspendGuild,
        SystemPermission::DeleteGuild,
        SystemPermission::AssignGuildOwner,
        SystemPermission::ViewAllUsers,
        SystemPermission::GlobalBanUser,
        SystemPermission::ViewAuditLog,
        SystemPermission::SendAnnouncement,
        SystemPermission::ManageSettings,
        SystemPermission::UseBreakGlass,
        SystemPermission::ReviewBreakGlass,
    ]
}

/// Human-readable description of a permission.
pub open spec fn description_text(p: SystemPermission) -> Seq<char> {
    match p {
        SystemPermission::ViewAllGuilds => "View all guilds on the platform"@,
        SystemPermission::SuspendGuild => "Suspend guilds (disable access)"@,
        SystemPermission::DeleteGuild => "Permanently delete guilds"@,
        SystemPermission::AssignGuildOwner => "Assign or transfer guild ownership"@,
        SystemPermission::ViewAllUsers => "View all platform users"@,
        SystemPermission::GlobalBanUser => "Ban users from entire platform"@,
        SystemPermission::ViewAuditLog => "View system-wide audit log"@,
        SystemPermission::SendAnnouncement => "Send platform announcements"@,
        SystemPermission::ManageSettings => "Manage system settings"@,
        SystemPermission::UseBreakGlass => "Use emergency break-glass access"@,
        SystemPermission::ReviewBreakGlass => "Review break-glass requests"@,
    }
}

/// A snake_case identifier: non-empty, lowercase ASCII letters and underscores.
pub open spec fn is_snake_case(s: Seq<char>) -> bool {
    s.len() > 0 && forall|i: int| 0 <= i < s.len() ==> ('a' <= #[trigger] s[i] <= 'z' || s[i] == '_')
}

impl SystemPermission {
    /// Returns the action name for audit logging.
    pub fn action_name(&self) -> (r: &'static str)
        ensures
            r@ == action_name_text(*self),
    {
        match self {
            Self::ViewAllGuilds => "view_all_guilds",
            Self::SuspendGuild => "suspend_guild",
            Self::DeleteGuild => "delete_guild",
            Self::AssignGuildOwner => "assign_guild_owner",
            Self::ViewAllUsers => "view_all_users",
            Self::GlobalBanUser => "global_ban_user",
            Self::ViewAuditLog => "view_audit_log",
            Self::SendAnnouncement => "send_announcement",
            Self::ManageSettings => "manage_settings",
            Self::UseBreakGlass => "use_break_glass",
            Self::ReviewBreakGlass => "review_break_glass",
        }
    }

    /// Returns a human-readable description of the permission.
    pub fn description(&self) -> (r: &'static str)
        ensures
            r@ == description_text(*self),
    {
        match self {
            Self::ViewAllGuilds => "View all guilds on the platform",
            Self::SuspendGuild => "Suspend guilds (disable access)",
            Self::DeleteGuild => "Permanently delete guilds",
            Self::AssignGuildOwner => "Assign or transfer guild ownership",
            Self::ViewAllUsers => "View all platform users",
            Self::GlobalBanUser => "Ban users from entire platform",
            Self::ViewAuditLog => "View system-wide audit log",
            Self::SendAnnouncement => "Send platform announcements",
            Self::ManageSettings => "Manage system settings",
            Self::UseBreakGlass => "Use emergency break-glass access",
            Self::ReviewBreakGlass => "Review break-glass requests",
        }
    }

    /// Returns all system permissions, each exactly once.
    pub fn all() -> (r: &'static [Self])
        ensures
            r@ == all_system_permissions(),
    {
        &[
            Self::ViewAllGuilds,
            Self::SuspendGuild,
            Self::DeleteGuild,
            Self::AssignGuildOwner,
            Self::ViewAllUsers,
            Self::GlobalBanUser,
            Self::ViewAuditLog,
            Self::SendAnnouncement,
            Self::ManageSettings,
            Self::UseBreakGlass,
            Self::ReviewBreakGlass,
        ]
    }
}

/// Distinct permissions have distinct audit-log action names.
pub proof fn lemma_action_names_unique(a: SystemPermission, b: SystemPermission)
    requires
        a != b,
    ensures
        action_name_text(a) != action_name_text(b),
{
    reveal_strlit("view_all_guilds");
    reveal_strlit("suspend_guild");
    reveal_strlit("delete_guild");
    reveal_strlit("assign_guild_owner");
    reveal_strlit("view_all_users");
    reveal_strlit("global_ban_user");
    reveal_strlit("view_audit_log");
    reveal_strlit("send_announcement");
    reveal_strlit("manage_settings");
    reveal_strlit("use_break_glass");
    reveal_strlit("review_break_glass");
    if action_name_text(a) == action_name_text(b) {
        assert(action_name_text(a).len() == action_name_text(b).len());
        assert(action_name_text(a)[0] == action_name_text(b)[0]);
        assert(action_name_text(a)[1] == action_name_text(b)[1]);
        assert(action_name_text(a)[5] == action_name_text(b)[5]);
        assert(action_name_text(a)[7] == action_name_text(b)[7]);
    }
}

/// Every action name is a snake_case identifier.
pub proof fn lemma_action_names_snake_case(p: SystemPermission)
    ensures
        is_snake_case(action_name_text(p)),
{
    reveal_strlit("view_all_guilds");
    reveal_strlit("suspend_guild");
    reveal_strlit("delete_guild");
    reveal_strlit("assign_guild_owner");
    reveal_strlit("view_all_users");
    reveal_strlit("global_ban_user");
    reveal_strlit("view_audit_log");
    reveal_strlit("send_announcement");
    reveal_strlit("manage_settings");
    reveal_strlit("use_break_glass");
    reveal_strlit("review_break_glass");
}

/// Every description is non-empty.
pub proof fn lemma_descriptions_not_empty(p: SystemPermission)
    ensures
        description_text(p).len() > 0,
{
    reveal_strlit("View all guilds on the platform");
    reveal_strlit("Suspend guilds (disable access)");
    reveal_strlit("Permanently delete guilds");
    reveal_strlit("Assign or transfer guild ownership");
    reveal_strlit("View all platform users");
    reveal_strlit("Ban users from entire platform");
    reveal_strlit("View system-wide audit log");
    reveal_strlit("Send platform announcements");
    reveal_strlit("Manage system settings");
    reveal_strlit("Use emergency break-glass access");
    reveal_strlit("Review break-glass requests");
}

/// The list of all permissions holds every permission exactly once.
pub proof fn lemma_all_lists_every_permission(p: SystemPermission)
    ensures
        all_system_permissions().contains(p),
        all_system_permissions().len() == 11,
        all_system_permissions().no_duplicates(),
{
    let s = all_system_permissions();
    let i: int = match p {
        SystemPermission::ViewAllGuilds => 0,
        SystemPermission::SuspendGuild => 1,
        SystemPermission::DeleteGuild => 2,
        SystemPermission::AssignGuildOwner => 3,
        SystemPermission::ViewAllUsers => 4,
        SystemPermission::GlobalBanUser => 5,
        SystemPermission::ViewAuditLog => 6,
        SystemPermission::SendAnnouncement => 7,
        SystemPermission::ManageSettings => 8,
        SystemPermission::UseBreakGlass => 9,
        SystemPermission::ReviewBreakGlass => 10,
    };
    assert(s[i] == p);
}

} // verus!
