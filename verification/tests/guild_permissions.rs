use vc_server::permissions::guild::GuildPermissions;

#[test]
fn test_content_permission_bits() {
    assert_eq!(GuildPermissions::SEND_MESSAGES().bits(), 1 << 0);
    assert_eq!(GuildPermissions::EMBED_LINKS().bits(), 1 << 1);
    assert_eq!(GuildPermissions::ATTACH_FILES().bits(), 1 << 2);
    assert_eq!(GuildPermissions::USE_EMOJI().bits(), 1 << 3);
    assert_eq!(GuildPermissions::ADD_REACTIONS().bits(), 1 << 4);
}

#[test]
fn test_voice_permission_bits() {
    assert_eq!(GuildPermissions::VOICE_CONNECT().bits(), 1 << 5);
    assert_eq!(GuildPermissions::VOICE_SPEAK().bits(), 1 << 6);
    assert_eq!(GuildPermissions::VOICE_MUTE_OTHERS().bits(), 1 << 7);
    assert_eq!(GuildPermissions::VOICE_DEAFEN_OTHERS().bits(), 1 << 8);
    assert_eq!(GuildPermissions::VOICE_MOVE_MEMBERS().bits(), 1 << 9);
}

#[test]
fn test_moderation_permission_bits() {
    assert_eq!(GuildPermissions::MANAGE_MESSAGES().bits(), 1 << 10);
    assert_eq!(GuildPermissions::TIMEOUT_MEMBERS().bits(), 1 << 11);
    assert_eq!(GuildPermissions::KICK_MEMBERS().bits(), 1 << 12);
    assert_eq!(GuildPermissions::BAN_MEMBERS().bits(), 1 << 13);
}

#[test]
fn test_guild_management_permission_bits() {
    assert_eq!(GuildPermissions::MANAGE_CHANNELS().bits(), 1 << 14);
    assert_eq!(GuildPermissions::MANAGE_ROLES().bits(), 1 << 15);
    assert_eq!(GuildPermissions::VIEW_AUDIT_LOG().bits(), 1 << 16);
    assert_eq!(GuildPermissions::MANAGE_GUILD().bits(), 1 << 17);
    assert_eq!(GuildPermissions::TRANSFER_OWNERSHIP().bits(), 1 << 18);
}

#[test]
fn test_invite_permission_bits() {
    assert_eq!(GuildPermissions::CREATE_INVITE().bits(), 1 << 19);
    assert_eq!(GuildPermissions::MANAGE_INVITES().bits(), 1 << 20);
}

#[test]
fn test_pages_permission_bits() {
    assert_eq!(GuildPermissions::MANAGE_PAGES().bits(), 1 << 21);
}

#[test]
fn test_screen_sharing_permission_bits() {
    assert_eq!(GuildPermissions::SCREEN_SHARE().bits(), 1 << 22);
}

#[test]
fn test_mention_everyone_permission_bits() {
    assert_eq!(GuildPermissions::MENTION_EVERYONE().bits(), 1 << 23);
}

#[test]
fn test_view_channel_permission_bits() {
    assert_eq!(GuildPermissions::VIEW_CHANNEL().bits(), 1 << 24);
}

// === Preset Tests ===

#[test]
fn test_everyone_default_includes_basic_permissions() {
    let everyone = GuildPermissions::EVERYONE_DEFAULT();

    // Should include content permissions
    assert!(everyone.has(GuildPermissions::SEND_MESSAGES()));
    assert!(everyone.has(GuildPermissions::EMBED_LINKS()));
    assert!(everyone.has(GuildPermissions::ATTACH_FILES()));
    assert!(everyone.has(GuildPermissions::USE_EMOJI()));
    assert!(everyone.has(GuildPermissions::ADD_REACTIONS()));

    // Should include basic voice
    assert!(everyone.has(GuildPermissions::VOICE_CONNECT()));
    assert!(everyone.has(GuildPermissions::VOICE_SPEAK()));

    // Should include invite creation
    assert!(everyone.has(GuildPermissions::CREATE_INVITE()));

    // Should NOT include moderation
    assert!(!everyone.has(GuildPermissions::MANAGE_MESSAGES()));
    assert!(!everyone.has(GuildPermissions::KICK_MEMBERS()));
    assert!(!everyone.has(GuildPermissions::BAN_MEMBERS()));

    // Should NOT include screen sharing (privileged feature)
    assert!(!everyone.has(GuildPermissions::SCREEN_SHARE()));
}

#[test]
fn test_moderator_default_extends_everyone() {
    let moderator = GuildPermissions::MODERATOR_DEFAULT();
    let everyone = GuildPermissions::EVERYONE_DEFAULT();

    // Moderator should have all everyone permissions
    assert!(moderator.contains(everyone));

    // Plus moderation permissions
    assert!(moderator.has(GuildPermissions::VOICE_MUTE_OTHERS()));
    assert!(moderator.has(GuildPermissions::MANAGE_MESSAGES()));
    assert!(moderator.has(GuildPermissions::TIMEOUT_MEMBERS()));
    assert!(moderator.has(GuildPermissions::KICK_MEMBERS()));
    assert!(moderator.has(GuildPermissions::VIEW_AUDIT_LOG()));
    assert!(moderator.has(GuildPermissions::SCREEN_SHARE()));

    // But not ban or channel management
    assert!(!moderator.has(GuildPermissions::BAN_MEMBERS()));
    assert!(!moderator.has(GuildPermissions::MANAGE_CHANNELS()));
}

#[test]
fn test_officer_default_extends_moderator() {
    let officer = GuildPermissions::OFFICER_DEFAULT();
    let moderator = GuildPermissions::MODERATOR_DEFAULT();

    // Officer should have all moderator permissions
    assert!(officer.contains(moderator));

    // Plus additional permissions
    assert!(officer.has(GuildPermissions::BAN_MEMBERS()));
    assert!(officer.has(GuildPermissions::MANAGE_CHANNELS()));
    assert!(officer.has(GuildPermissions::MANAGE_PAGES()));

    // But not ownership transfer
    assert!(!officer.has(GuildPermissions::TRANSFER_OWNERSHIP()));
}

#[test]
fn test_everyone_default_passes_validation() {
    assert!(GuildPermissions::EVERYONE_DEFAULT().validate_for_everyone());
}

#[test]
fn test_moderator_default_fails_everyone_validation() {
    assert!(!GuildPermissions::MODERATOR_DEFAULT().validate_for_everyone());
}

// === Database Conversion Tests ===

#[test]
fn test_to_db_and_from_db_roundtrip() {
    let original = GuildPermissions::SEND_MESSAGES()
        | GuildPermissions::VOICE_CONNECT()
        | GuildPermissions::MANAGE_CHANNELS();

    let db_value = original.to_db();
    let restored = GuildPermissions::from_db(db_value);

    assert_eq!(original, restored);
}

#[test]
fn guild_test_from_db_with_zero() {
    let perms = GuildPermissions::from_db(0);
    assert!(perms.is_empty());
}

#[test]
fn test_from_db_with_negative_value() {
    // PostgreSQL might return negative values for high bit patterns
    // This should be handled correctly
    let db_value: i64 = -1; // All bits set
    let perms = GuildPermissions::from_db(db_value);

    // Should have all defined permissions
    assert!(perms.has(GuildPermissions::SEND_MESSAGES()));
    assert!(perms.has(GuildPermissions::TRANSFER_OWNERSHIP()));
    assert!(perms.has(GuildPermissions::MANAGE_INVITES()));
}

#[test]
fn guild_test_from_db_truncates_unknown_bits() {
    // Set a bit beyond our defined permissions (bit 63)
    let db_value: i64 = (1_i64 << 0) | (1_i64 << 63);
    let perms = GuildPermissions::from_db(db_value);

    // Should have SEND_MESSAGES but unknown bit should be truncated
    assert!(perms.has(GuildPermissions::SEND_MESSAGES()));
    // The unknown bit should not appear in the result
    assert_eq!(perms.bits(), 1);
}

#[test]
fn test_to_db_preserves_all_bits() {
    let all_perms = GuildPermissions::all();
    let db_value = all_perms.to_db();

    // Should be a positive value (highest bit is 20, well within i64 range)
    assert!(db_value > 0);

    // Verify specific bits
    assert_eq!(db_value & (1 << 0), 1 << 0); // SEND_MESSAGES
    assert_eq!(db_value & (1 << 20), 1 << 20); // MANAGE_INVITES
}

// === Has Method Tests ===

#[test]
fn test_has_single_permission() {
    let perms = GuildPermissions::SEND_MESSAGES();
    assert!(perms.has(GuildPermissions::SEND_MESSAGES()));
    assert!(!perms.has(GuildPermissions::VOICE_CONNECT()));
}

#[test]
fn test_has_multiple_permissions() {
    let perms = GuildPermissions::SEND_MESSAGES() | GuildPermissions::VOICE_CONNECT();

    // Check for combined requirement
    let required = GuildPermissions::SEND_MESSAGES() | GuildPermissions::VOICE_CONNECT();
    assert!(perms.has(required));

    // Check for partial - should fail since has() requires ALL bits
    let partial_missing = GuildPermissions::SEND_MESSAGES() | GuildPermissions::BAN_MEMBERS();
    assert!(!perms.has(partial_missing));
}

#[test]
fn test_has_empty_permissions() {
    let perms = GuildPermissions::empty();
    assert!(perms.has(GuildPermissions::empty()));
    assert!(!perms.has(GuildPermissions::SEND_MESSAGES()));
}

// === Validate for Everyone Tests ===

#[test]
fn test_validate_for_everyone_with_safe_permissions() {
    let safe = GuildPermissions::SEND_MESSAGES()
        | GuildPermissions::VOICE_CONNECT()
        | GuildPermissions::CREATE_INVITE();

    assert!(safe.validate_for_everyone());
}

#[test]
fn test_validate_for_everyone_with_forbidden_permission() {
    // Each forbidden permission should fail validation
    let forbidden_perms = [
        GuildPermissions::VOICE_MUTE_OTHERS(),
        GuildPermissions::VOICE_DEAFEN_OTHERS(),
        GuildPermissions::VOICE_MOVE_MEMBERS(),
        GuildPermissions::MANAGE_MESSAGES(),
        GuildPermissions::TIMEOUT_MEMBERS(),
        GuildPermissions::KICK_MEMBERS(),
        GuildPermissions::BAN_MEMBERS(),
        GuildPermissions::MANAGE_CHANNELS(),
        GuildPermissions::MANAGE_ROLES(),
        GuildPermissions::VIEW_AUDIT_LOG(),
        GuildPermissions::MANAGE_GUILD(),
        GuildPermissions::TRANSFER_OWNERSHIP(),
        GuildPermissions::MANAGE_INVITES(),
        GuildPermissions::MANAGE_PAGES(),
        GuildPermissions::SCREEN_SHARE(),
        GuildPermissions::MENTION_EVERYONE(),
    ];

    for forbidden in forbidden_perms {
        let perms = GuildPermissions::SEND_MESSAGES() | forbidden;
        assert!(
            !perms.validate_for_everyone(),
            "{} should be forbidden for @everyone",
            forbidden.describe()
        );
    }
}

#[test]
fn test_validate_for_everyone_empty() {
    assert!(GuildPermissions::empty().validate_for_everyone());
}

// === Bitwise Operation Tests ===

#[test]
fn test_union_operation() {
    let a = GuildPermissions::SEND_MESSAGES();
    let b = GuildPermissions::VOICE_CONNECT();
    let combined = a | b;

    assert!(combined.has(GuildPermissions::SEND_MESSAGES()));
    assert!(combined.has(GuildPermissions::VOICE_CONNECT()));
}

#[test]
fn test_intersection_operation() {
    let a = GuildPermissions::SEND_MESSAGES() | GuildPermissions::VOICE_CONNECT();
    let b = GuildPermissions::VOICE_CONNECT() | GuildPermissions::BAN_MEMBERS();
    let intersection = a & b;

    assert!(!intersection.has(GuildPermissions::SEND_MESSAGES()));
    assert!(intersection.has(GuildPermissions::VOICE_CONNECT()));
    assert!(!intersection.has(GuildPermissions::BAN_MEMBERS()));
}

#[test]
fn test_difference_operation() {
    let moderator = GuildPermissions::MODERATOR_DEFAULT();
    let everyone = GuildPermissions::EVERYONE_DEFAULT();
    let moderator_only = moderator - everyone;

    // Should not have everyone permissions
    assert!(!moderator_only.has(GuildPermissions::SEND_MESSAGES()));

    // Should have moderator-specific permissions
    assert!(moderator_only.has(GuildPermissions::MANAGE_MESSAGES()));
    assert!(moderator_only.has(GuildPermissions::KICK_MEMBERS()));
}

// === Default and Empty Tests ===

#[test]
fn guild_test_default_is_empty() {
    assert_eq!(GuildPermissions::default(), GuildPermissions::empty());
}

#[test]
fn test_empty_has_no_permissions() {
    let empty = GuildPermissions::empty();
    assert!(!empty.has(GuildPermissions::SEND_MESSAGES()));
    assert!(empty.is_empty());
}

// === Clone and Copy Tests ===

#[test]
fn guild_test_clone() {
    let original = GuildPermissions::MODERATOR_DEFAULT();
    let cloned = original;

    assert_eq!(original, cloned);
}

// === Debug and Display Tests ===

#[test]
fn guild_test_debug_format() {
    let perms = GuildPermissions::SEND_MESSAGES() | GuildPermissions::VOICE_CONNECT();
    let debug_str = perms.describe();

    assert!(debug_str.contains("SEND_MESSAGES"));
    assert!(debug_str.contains("VOICE_CONNECT"));
}

// === Edge Case Tests ===

#[test]
fn test_all_permissions() {
    let all = GuildPermissions::all();

    // Should have all defined permissions
    assert!(all.has(GuildPermissions::SEND_MESSAGES()));
    assert!(all.has(GuildPermissions::TRANSFER_OWNERSHIP()));
    assert!(all.has(GuildPermissions::MANAGE_INVITES()));
}

#[test]
fn test_no_bit_overlaps() {
    // Verify no permissions share the same bit
    let all_perms = [
        GuildPermissions::SEND_MESSAGES(),
        GuildPermissions::EMBED_LINKS(),
        GuildPermissions::ATTACH_FILES(),
        GuildPermissions::USE_EMOJI(),
        GuildPermissions::ADD_REACTIONS(),
        GuildPermissions::VOICE_CONNECT(),
        GuildPermissions::VOICE_SPEAK(),
        GuildPermissions::VOICE_MUTE_OTHERS(),
        GuildPermissions::VOICE_DEAFEN_OTHERS(),
        GuildPermissions::VOICE_MOVE_MEMBERS(),
        GuildPermissions::MANAGE_MESSAGES(),
        GuildPermissions::TIMEOUT_MEMBERS(),
        GuildPermissions::KICK_MEMBERS(),
        GuildPermissions::BAN_MEMBERS(),
        GuildPermissions::MANAGE_CHANNELS(),
        GuildPermissions::MANAGE_ROLES(),
        GuildPermissions::VIEW_AUDIT_LOG(),
        GuildPermissions::MANAGE_GUILD(),
        GuildPermissions::TRANSFER_OWNERSHIP(),
        GuildPermissions::CREATE_INVITE(),
        GuildPermissions::MANAGE_INVITES(),
        GuildPermissions::MANAGE_PAGES(),
        GuildPermissions::SCREEN_SHARE(),
        GuildPermissions::MENTION_EVERYONE(),
        GuildPermissions::VIEW_CHANNEL(),
    ];

    // Check that combining all equals the sum of individual bits
    let combined: u64 = all_perms.iter().fold(0, |acc, p| acc | p.bits());
    let sum: u64 = all_perms.iter().map(|p| p.bits()).sum();

    assert_eq!(combined, sum, "Some permissions share the same bit!");
}

