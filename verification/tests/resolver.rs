use vc_server::permissions::guild::GuildPermissions;
use vc_server::permissions::models::{ChannelOverride, GuildRole};
use vc_server::permissions::resolver::{
    can_manage_role, can_moderate_member, compute_guild_permissions, PermissionError,
};

fn new_id() -> u128 {
    uuid::Uuid::new_v4().as_u128()
}

fn now_ms() -> i64 {
    chrono::Utc::now().timestamp_millis()
}

#[test]
fn test_owner_has_all_permissions() {
    let owner_id = new_id();
    let perms =
        compute_guild_permissions(owner_id, owner_id, GuildPermissions::empty(), &[], None);
    assert_eq!(perms, GuildPermissions::all());
}

#[test]
fn test_everyone_permissions_applied() {
    let user_id = new_id();
    let owner_id = new_id();
    let everyone = GuildPermissions::SEND_MESSAGES() | GuildPermissions::VOICE_CONNECT();

    let perms = compute_guild_permissions(user_id, owner_id, everyone, &[], None);

    assert!(perms.has(GuildPermissions::SEND_MESSAGES()));
    assert!(perms.has(GuildPermissions::VOICE_CONNECT()));
    assert!(!perms.has(GuildPermissions::KICK_MEMBERS()));
}

#[test]
fn test_role_permissions_combined() {
    let user_id = new_id();
    let owner_id = new_id();
    let everyone = GuildPermissions::SEND_MESSAGES();

    let mod_role = GuildRole {
        id: new_id(),
        guild_id: new_id(),
        name: "Moderator".to_string(),
        color: None,
        permissions: GuildPermissions::MANAGE_MESSAGES() | GuildPermissions::TIMEOUT_MEMBERS(),
        position: 100,
        is_default: false,
        created_at: now_ms(),
        updated_at: now_ms(),
    };

    let perms = compute_guild_permissions(user_id, owner_id, everyone, &[mod_role], None);

    assert!(perms.has(GuildPermissions::SEND_MESSAGES())); // from everyone
    assert!(perms.has(GuildPermissions::MANAGE_MESSAGES())); // from role
    assert!(perms.has(GuildPermissions::TIMEOUT_MEMBERS())); // from role
}

#[test]
fn test_channel_override_deny_wins() {
    let user_id = new_id();
    let owner_id = new_id();
    let role_id = new_id();
    let channel_id = new_id();

    let everyone = GuildPermissions::SEND_MESSAGES() | GuildPermissions::EMBED_LINKS();

    let role = GuildRole {
        id: role_id,
        guild_id: new_id(),
        name: "Member".to_string(),
        color: None,
        permissions: GuildPermissions::empty(),
        position: 999,
        is_default: true,
        created_at: now_ms(),
        updated_at: now_ms(),
    };

    let override_entry = ChannelOverride {
        id: new_id(),
        channel_id,
        role_id,
        allow_permissions: GuildPermissions::ATTACH_FILES(),
        deny_permissions: GuildPermissions::SEND_MESSAGES(),
    };

    let perms = compute_guild_permissions(
        user_id,
        owner_id,
        everyone,
        &[role],
        Some(&[override_entry]),
    );

    assert!(!perms.has(GuildPermissions::SEND_MESSAGES())); // denied by override
    assert!(perms.has(GuildPermissions::EMBED_LINKS())); // still from everyone
    assert!(perms.has(GuildPermissions::ATTACH_FILES())); // allowed by override
}

#[test]
fn test_can_manage_role_hierarchy() {
    let perms = GuildPermissions::MANAGE_ROLES() | GuildPermissions::KICK_MEMBERS();

    // Can manage lower role
    assert!(can_manage_role(perms, 50, 100, None).is_ok());

    // Cannot manage equal position
    assert!(can_manage_role(perms, 50, 50, None).is_err());

    // Cannot manage higher role
    assert!(can_manage_role(perms, 50, 10, None).is_err());
}

#[test]
fn test_cannot_escalate_permissions() {
    let actor_perms = GuildPermissions::MANAGE_ROLES() | GuildPermissions::KICK_MEMBERS();
    let new_perms = GuildPermissions::KICK_MEMBERS() | GuildPermissions::BAN_MEMBERS();

    // Actor doesn't have BAN_MEMBERS, so this should fail
    let result = can_manage_role(actor_perms, 50, 100, Some(new_perms));
    assert!(matches!(result, Err(PermissionError::CannotEscalate(_))));
}

#[test]
fn test_cannot_moderate_owner() {
    let result = can_moderate_member(50, 1, true);
    assert!(matches!(result, Err(PermissionError::CannotModerateOwner)));
}

#[test]
fn test_can_moderate_lower_ranked_member() {
    // Actor at position 50 can moderate member at position 100 (lower rank)
    let result = can_moderate_member(50, 100, false);
    assert!(result.is_ok());
}

#[test]
fn test_cannot_moderate_equal_ranked_member() {
    let result = can_moderate_member(50, 50, false);
    assert!(matches!(result, Err(PermissionError::RoleHierarchy { .. })));
}

#[test]
fn test_cannot_moderate_higher_ranked_member() {
    let result = can_moderate_member(50, 10, false);
    assert!(matches!(result, Err(PermissionError::RoleHierarchy { .. })));
}

#[test]
fn test_missing_manage_roles_permission() {
    let perms = GuildPermissions::KICK_MEMBERS(); // No MANAGE_ROLES

    let result = can_manage_role(perms, 50, 100, None);
    assert!(matches!(result, Err(PermissionError::MissingPermission(_))));
}

#[test]
fn test_multiple_roles_permissions_combined() {
    let user_id = new_id();
    let owner_id = new_id();
    let guild_id = new_id();
    let everyone = GuildPermissions::empty();

    let role1 = GuildRole {
        id: new_id(),
        guild_id,
        name: "Role1".to_string(),
        color: None,
        permissions: GuildPermissions::SEND_MESSAGES(),
        position: 100,
        is_default: false,
        created_at: now_ms(),
        updated_at: now_ms(),
    };

    let role2 = GuildRole {
        id: new_id(),
        guild_id,
        name: "Role2".to_string(),
        color: None,
        permissions: GuildPermissions::VOICE_CONNECT(),
        position: 50,
        is_default: false,
        created_at: now_ms(),
        updated_at: now_ms(),
    };

    let perms = compute_guild_permissions(user_id, owner_id, everyone, &[role1, role2], None);

    // Should have permissions from both roles
    assert!(perms.has(GuildPermissions::SEND_MESSAGES()));
    assert!(perms.has(GuildPermissions::VOICE_CONNECT()));
}

#[test]
fn test_permission_error_display() {
    let missing = PermissionError::MissingPermission(GuildPermissions::MANAGE_ROLES());
    assert!(missing.message().contains("Missing permission"));

    let hierarchy = PermissionError::RoleHierarchy {
        actor_position: 50,
        target_position: 10,
    };
    assert!(hierarchy.message().contains("position"));

    let escalate = PermissionError::CannotEscalate(GuildPermissions::BAN_MEMBERS());
    assert!(escalate.message().contains("Cannot grant"));

    let owner = PermissionError::CannotModerateOwner;
    assert!(owner.message().contains("guild owner"));

    let not_member = PermissionError::NotGuildMember;
    assert!(not_member.message().contains("not a member"));

    let elevation = PermissionError::ElevationRequired;
    assert!(elevation.message().contains("elevated session"));

    let not_admin = PermissionError::NotSystemAdmin;
    assert!(not_admin.message().contains("not a system admin"));

    let db_error = PermissionError::DatabaseError("connection refused".to_string());
    assert!(db_error.message().contains("Database error"));
    assert!(db_error.message().contains("connection refused"));

    let not_found = PermissionError::NotFound;
    assert!(not_found.message().contains("not found"));

    let invalid = PermissionError::InvalidChannel;
    assert!(invalid.message().contains("Invalid channel"));

    let forbidden = PermissionError::Forbidden;
    assert!(forbidden.message().contains("forbidden"));
}

#[test]
fn test_can_grant_permissions_you_have() {
    let actor_perms = GuildPermissions::MANAGE_ROLES()
        | GuildPermissions::KICK_MEMBERS()
        | GuildPermissions::BAN_MEMBERS();
    let new_perms = GuildPermissions::KICK_MEMBERS() | GuildPermissions::BAN_MEMBERS();

    // Actor has all permissions being granted, so this should succeed
    let result = can_manage_role(actor_perms, 50, 100, Some(new_perms));
    assert!(result.is_ok());
}

#[test]
fn test_channel_override_multiple_roles() {
    let user_id = new_id();
    let owner_id = new_id();
    let guild_id = new_id();
    let channel_id = new_id();
    let role1_id = new_id();
    let role2_id = new_id();

    let everyone = GuildPermissions::SEND_MESSAGES();

    let role1 = GuildRole {
        id: role1_id,
        guild_id,
        name: "Role1".to_string(),
        color: None,
        permissions: GuildPermissions::VOICE_CONNECT(),
        position: 100,
        is_default: false,
        created_at: now_ms(),
        updated_at: now_ms(),
    };

    let role2 = GuildRole {
        id: role2_id,
        guild_id,
        name: "Role2".to_string(),
        color: None,
        permissions: GuildPermissions::EMBED_LINKS(),
        position: 50,
        is_default: false,
        created_at: now_ms(),
        updated_at: now_ms(),
    };

    let override1 = ChannelOverride {
        id: new_id(),
        channel_id,
        role_id: role1_id,
        allow_permissions: GuildPermissions::ATTACH_FILES(),
        deny_permissions: GuildPermissions::empty(),
    };

    let override2 = ChannelOverride {
        id: new_id(),
        channel_id,
        role_id: role2_id,
        allow_permissions: GuildPermissions::empty(),
        deny_permissions: GuildPermissions::SEND_MESSAGES(),
    };

    let perms = compute_guild_permissions(
        user_id,
        owner_id,
        everyone,
        &[role1, role2],
        Some(&[override1, override2]),
    );

    // SEND_MESSAGES denied by role2's override
    assert!(!perms.has(GuildPermissions::SEND_MESSAGES()));
    // ATTACH_FILES allowed by role1's override
    assert!(perms.has(GuildPermissions::ATTACH_FILES()));
    // VOICE_CONNECT from role1
    assert!(perms.has(GuildPermissions::VOICE_CONNECT()));
    // EMBED_LINKS from role2
    assert!(perms.has(GuildPermissions::EMBED_LINKS()));
}

#[test]
fn test_channel_override_deny_wins_regardless_of_role_order() {
    let user_id = new_id();
    let owner_id = new_id();
    let guild_id = new_id();
    let channel_id = new_id();
    let allow_role_id = new_id();
    let deny_role_id = new_id();

    let everyone = GuildPermissions::VIEW_CHANNEL();

    let allow_role = GuildRole {
        id: allow_role_id,
        guild_id,
        name: "AllowRole".to_string(),
        color: None,
        permissions: GuildPermissions::empty(),
        position: 100,
        is_default: false,
        created_at: now_ms(),
        updated_at: now_ms(),
    };

    let deny_role = GuildRole {
        id: deny_role_id,
        guild_id,
        name: "DenyRole".to_string(),
        color: None,
        permissions: GuildPermissions::empty(),
        position: 200,
        is_default: false,
        created_at: now_ms(),
        updated_at: now_ms(),
    };

    let allow_override = ChannelOverride {
        id: new_id(),
        channel_id,
        role_id: allow_role_id,
        allow_permissions: GuildPermissions::VIEW_CHANNEL(),
        deny_permissions: GuildPermissions::empty(),
    };

    let deny_override = ChannelOverride {
        id: new_id(),
        channel_id,
        role_id: deny_role_id,
        allow_permissions: GuildPermissions::empty(),
        deny_permissions: GuildPermissions::VIEW_CHANNEL(),
    };

    let overrides = [allow_override, deny_override];

    // Order A: allow role first, deny role second.
    let perms_a = compute_guild_permissions(
        user_id,
        owner_id,
        everyone,
        &[allow_role.clone(), deny_role.clone()],
        Some(&overrides),
    );

    // Order B: deny role first, allow role second.
    let perms_b = compute_guild_permissions(
        user_id,
        owner_id,
        everyone,
        &[deny_role, allow_role],
        Some(&overrides),
    );

    assert!(!perms_a.has(GuildPermissions::VIEW_CHANNEL()));
    assert!(!perms_b.has(GuildPermissions::VIEW_CHANNEL()));
}
