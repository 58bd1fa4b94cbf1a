use vc_server::permissions::guild::GuildPermissions;
use vc_server::permissions::queries::default_roles;

#[test]
fn test_guild_permissions_to_db() {
    // Verify permission conversion works correctly
    let perms = GuildPermissions::SEND_MESSAGES() | GuildPermissions::VOICE_CONNECT();
    let db_value = perms.to_db();
    assert!(db_value > 0);

    let restored = GuildPermissions::from_db(db_value);
    assert_eq!(perms, restored);
}

#[test]
fn test_everyone_default_to_db() {
    let db_value = GuildPermissions::EVERYONE_DEFAULT().to_db();
    assert!(db_value > 0);
}

#[test]
fn test_moderator_default_to_db() {
    let db_value = GuildPermissions::MODERATOR_DEFAULT().to_db();
    assert!(db_value > 0);
}

#[test]
fn test_officer_default_to_db() {
    let db_value = GuildPermissions::OFFICER_DEFAULT().to_db();
    assert!(db_value > 0);
}

#[test]
fn default_roles_are_ranked_presets() {
    let roles = default_roles();
    assert_eq!(roles.len(), 3);
    assert_eq!(roles[0].name, "@everyone");
    assert_eq!(roles[0].color, None);
    assert_eq!(roles[0].position, 1000);
    assert!(roles[0].is_default);
    assert_eq!(roles[0].permissions.to_db(), GuildPermissions::EVERYONE_DEFAULT().to_db());
    assert_eq!(roles[1].name, "Moderator");
    assert_eq!(roles[1].color.as_deref(), Some("#3498db"));
    assert_eq!(roles[1].position, 100);
    assert_eq!(roles[1].permissions.to_db(), GuildPermissions::MODERATOR_DEFAULT().to_db());
    assert_eq!(roles[2].name, "Officer");
    assert_eq!(roles[2].color.as_deref(), Some("#e74c3c"));
    assert_eq!(roles[2].position, 50);
    assert!(!roles[2].is_default);
    assert!(roles[2].permissions.contains(roles[1].permissions));
    assert!(roles[1].permissions.contains(roles[0].permissions));
    assert!(roles[0].permissions.validate_for_everyone());
}
