use vc_server::permissions::guild::GuildPermissions;
use vc_server::permissions::helpers::MemberPermissionContext;
use vc_server::permissions::resolver::PermissionError;

#[test]
fn test_member_permission_context_has_permission() {
    let ctx = MemberPermissionContext {
        guild_owner_id: uuid::Uuid::new_v4().as_u128(),
        everyone_permissions: GuildPermissions::SEND_MESSAGES(),
        member_roles: vec![],
        computed_permissions: GuildPermissions::SEND_MESSAGES() | GuildPermissions::VOICE_CONNECT(),
        highest_role_position: None,
        is_owner: false,
    };

    assert!(ctx.has_permission(GuildPermissions::SEND_MESSAGES()));
    assert!(ctx.has_permission(GuildPermissions::VOICE_CONNECT()));
    assert!(!ctx.has_permission(GuildPermissions::BAN_MEMBERS()));
}

#[test]
fn test_member_permission_context_require_permission_success() {
    let ctx = MemberPermissionContext {
        guild_owner_id: uuid::Uuid::new_v4().as_u128(),
        everyone_permissions: GuildPermissions::SEND_MESSAGES(),
        member_roles: vec![],
        computed_permissions: GuildPermissions::SEND_MESSAGES() | GuildPermissions::MANAGE_ROLES(),
        highest_role_position: Some(50),
        is_owner: false,
    };

    assert!(ctx
        .require_permission(GuildPermissions::SEND_MESSAGES())
        .is_ok());
    assert!(ctx
        .require_permission(GuildPermissions::MANAGE_ROLES())
        .is_ok());
}

#[test]
fn test_member_permission_context_require_permission_failure() {
    let ctx = MemberPermissionContext {
        guild_owner_id: uuid::Uuid::new_v4().as_u128(),
        everyone_permissions: GuildPermissions::SEND_MESSAGES(),
        member_roles: vec![],
        computed_permissions: GuildPermissions::SEND_MESSAGES(),
        highest_role_position: None,
        is_owner: false,
    };

    let result = ctx.require_permission(GuildPermissions::BAN_MEMBERS());
    assert!(matches!(result, Err(PermissionError::MissingPermission(_))));
}

#[test]
fn test_owner_context() {
    let owner_id = uuid::Uuid::new_v4().as_u128();
    let ctx = MemberPermissionContext {
        guild_owner_id: owner_id,
        everyone_permissions: GuildPermissions::SEND_MESSAGES(),
        member_roles: vec![],
        computed_permissions: GuildPermissions::all(), // Owners have all permissions
        highest_role_position: None,
        is_owner: true,
    };

    assert!(ctx.is_owner);
    assert!(ctx.has_permission(GuildPermissions::TRANSFER_OWNERSHIP()));
    assert!(ctx.has_permission(GuildPermissions::MANAGE_GUILD()));
}

#[test]
fn test_highest_role_position() {
    // No roles assigned
    let ctx_no_roles = MemberPermissionContext {
        guild_owner_id: uuid::Uuid::new_v4().as_u128(),
        everyone_permissions: GuildPermissions::empty(),
        member_roles: vec![],
        computed_permissions: GuildPermissions::empty(),
        highest_role_position: None,
        is_owner: false,
    };
    assert_eq!(ctx_no_roles.highest_role_position, None);

    // With roles
    let ctx_with_roles = MemberPermissionContext {
        guild_owner_id: uuid::Uuid::new_v4().as_u128(),
        everyone_permissions: GuildPermissions::empty(),
        member_roles: vec![], // Roles would be here but we just test the position
        computed_permissions: GuildPermissions::KICK_MEMBERS(),
        highest_role_position: Some(50),
        is_owner: false,
    };
    assert_eq!(ctx_with_roles.highest_role_position, Some(50));
}
