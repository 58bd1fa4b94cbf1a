use vc_server::guild::emojis::{
    check_emoji_limit, emoji_cleanup_keys, emoji_edit_needs_permission, emoji_image_url,
    emoji_media_type, emoji_object_key, emoji_permission_outcome, is_animated, media_for_format,
    require_emoji, require_emoji_member, require_storage, EmojiError, EmojiUploadForm,
    ImageFormatKind,
};
use vc_server::guild::handlers::{
    channel_permission_refusal, check_create_guild, check_kick_target, check_leave, check_update_guild, reject_violations,
    require_member, require_owner, require_rows_affected, update_guild_set_clause, GuildError,
};
use vc_server::guild::invites::{
    invite_code_from_indices,
    check_invite_found, check_invite_quota, check_member_limit, check_not_banned,
    generate_invite_code, invite_code_after_lookup, invite_code_needs_check, invite_expires_at,
    invite_response, parse_expiry, GuildInvite,
};
use vc_server::guild::roles::{
    check_assign_role, check_create_role, check_delete_role, check_remove_role,
    check_update_role, next_role_position, require_role_removed, role_error_from_permission,
    RoleError, RoleRecord,
};
use vc_server::guild::search::{
    assemble_results, check_search_access, default_limit, reported_window, search_term,
    search_window, MessageHit, SearchError,
    UserRecord,
};
use vc_server::guild::types::{
    CreateEmojiRequest, CreateGuildRequest, CreateRoleRequest, UpdateGuildRequest,
};
use vc_server::permissions::guild::GuildPermissions;
use vc_server::permissions::helpers::MemberPermissionContext;
use vc_server::permissions::resolver::PermissionError;

fn validation_text(e: GuildError) -> String {
    match e {
        GuildError::Validation(m) => m,
        other => panic!("expected a validation error, got {other:?}"),
    }
}

#[test]
fn guild_name_length_rules() {
    let ok = CreateGuildRequest { name: "ab".to_string(), description: None };
    assert!(check_create_guild(&ok).is_ok());
    let short = CreateGuildRequest { name: "a".to_string(), description: None };
    assert_eq!(
        validation_text(check_create_guild(&short).unwrap_err()),
        "name: Name must be 2-100 characters"
    );
    // Lengths count characters, not bytes.
    let wide = CreateGuildRequest { name: "é".repeat(100), description: None };
    assert!(check_create_guild(&wide).is_ok());
    let long_desc =
        CreateGuildRequest { name: "Guild".to_string(), description: Some("d".repeat(1001)) };
    assert_eq!(
        validation_text(check_create_guild(&long_desc).unwrap_err()),
        "description: Description must be at most 1000 characters"
    );
}

#[test]
fn two_broken_rules_are_both_reported() {
    let bad = CreateGuildRequest { name: "x".to_string(), description: Some("d".repeat(1001)) };
    let text = validation_text(check_create_guild(&bad).unwrap_err());
    assert!(text.contains("name: Name must be 2-100 characters"));
    assert!(text.contains("description: Description must be at most 1000 characters"));
}

#[test]
fn guild_update_checks_given_fields() {
    let none = UpdateGuildRequest { name: None, description: None, icon_url: None };
    assert!(check_update_guild(&none).is_ok());
    assert_eq!(update_guild_set_clause(&none), None);
    let all = UpdateGuildRequest {
        name: Some("New".to_string()),
        description: Some("D".to_string()),
        icon_url: Some("http://x".to_string()),
    };
    assert_eq!(
        update_guild_set_clause(&all).unwrap(),
        "name = $2, description = $3, icon_url = $4"
    );
    let icon = UpdateGuildRequest { name: None, description: None, icon_url: Some(String::new()) };
    assert_eq!(update_guild_set_clause(&icon).unwrap(), "icon_url = $2");
    assert!(reject_violations(Vec::new()).is_ok());
}

#[test]
fn ownership_and_membership_checks() {
    assert!(matches!(require_owner(None, 1), Err(GuildError::NotFound)));
    assert!(matches!(require_owner(Some(2), 1), Err(GuildError::Forbidden)));
    assert_eq!(require_owner(Some(1), 1).unwrap(), 1);
    assert!(matches!(require_member(false), Err(GuildError::Forbidden)));
    assert!(matches!(check_leave(false, 1, 2), Err(GuildError::NotFound)));
    assert_eq!(
        validation_text(check_leave(true, 2, 2).unwrap_err()),
        "Guild owner must transfer ownership before leaving"
    );
    assert!(check_leave(true, 1, 2).is_ok());
    assert_eq!(
        validation_text(check_kick_target(5, 5).unwrap_err()),
        "Cannot kick yourself from the guild"
    );
    assert!(matches!(require_rows_affected(0), Err(GuildError::NotFound)));
}

#[test]
fn guild_error_responses() {
    assert_eq!(
        GuildError::NotFound.response(),
        (404, "GUILD_NOT_FOUND".to_string(), "Guild not found".to_string())
    );
    assert_eq!(
        GuildError::Database("boom".to_string()).response(),
        (500, "INTERNAL_ERROR".to_string(), "Database error".to_string())
    );
    assert_eq!(
        GuildError::Permission(PermissionError::CannotModerateOwner).response().2,
        "Cannot moderate guild owner"
    );
}

#[test]
fn invite_expiry_parsing() {
    assert_eq!(parse_expiry("30m"), Some(1800));
    assert_eq!(parse_expiry("1h"), Some(3600));
    assert_eq!(parse_expiry("1d"), Some(86400));
    assert_eq!(parse_expiry("7d"), Some(604800));
    assert_eq!(parse_expiry("never"), None);
    // Unknown values default to 7 days.
    assert_eq!(parse_expiry("forever"), Some(604800));
    assert_eq!(invite_expires_at(1_000, "1h"), Some(3_601_000));
    assert_eq!(invite_expires_at(1_000, "never"), None);
}

#[test]
fn invite_codes_are_eight_alphanumerics() {
    for _ in 0..20 {
        let code = generate_invite_code();
        assert_eq!(code.len(), 8);
        assert!(code.chars().all(|c| c.is_ascii_alphanumeric()));
    }
}

#[test]
fn invite_code_collision_retries() {
    assert!(invite_code_needs_check(0));
    assert!(!invite_code_needs_check(5));
    assert_eq!(invite_code_after_lookup(0, true), Some(1));
    assert_eq!(invite_code_after_lookup(3, false), None);
}

#[test]
fn invite_rules() {
    assert!(check_invite_quota(9).is_ok());
    assert_eq!(
        validation_text(check_invite_quota(10).unwrap_err()),
        "Maximum 10 active invites per guild"
    );
    assert_eq!(
        validation_text(check_invite_found(false).unwrap_err()),
        "Invalid or expired invite code"
    );
    assert!(matches!(check_not_banned(true), Err(GuildError::Forbidden)));
    match check_member_limit(500, 500) {
        Err(GuildError::LimitExceeded(m)) => {
            assert_eq!(m, "Guild has reached the maximum number of members (500)")
        }
        other => panic!("unexpected {other:?}"),
    }
    assert!(check_member_limit(499, 500).is_ok());
}

#[test]
fn joining_counts_the_use_once() {
    let invite = GuildInvite {
        id: 1,
        guild_id: 2,
        code: "AbCd1234".to_string(),
        created_by: 3,
        expires_at: None,
        use_count: 4,
        created_at: 5,
    };
    let joined = invite_response(invite.clone(), "Guild".to_string(), true);
    assert_eq!(joined.use_count, 5);
    assert_eq!(joined.guild_name, "Guild");
    let again = invite_response(invite, "Guild".to_string(), false);
    assert_eq!(again.use_count, 4);
}

fn ctx(perms: GuildPermissions, highest: Option<i32>) -> MemberPermissionContext {
    MemberPermissionContext {
        guild_owner_id: 99,
        everyone_permissions: GuildPermissions::empty(),
        member_roles: vec![],
        computed_permissions: perms,
        highest_role_position: highest,
        is_owner: false,
    }
}

#[test]
fn role_creation_rules() {
    let manager = ctx(GuildPermissions::MANAGE_ROLES() | GuildPermissions::KICK_MEMBERS(), Some(10));
    let req = CreateRoleRequest {
        name: "Helpers".to_string(),
        color: None,
        permissions: Some(GuildPermissions::KICK_MEMBERS().bits() | (1u64 << 40)),
    };
    // Unknown bits are dropped; the rest must be held by the actor.
    assert_eq!(check_create_role(&manager, &req).unwrap(), GuildPermissions::KICK_MEMBERS());
    let escalate = CreateRoleRequest {
        name: "Bans".to_string(),
        color: None,
        permissions: Some(GuildPermissions::BAN_MEMBERS().bits()),
    };
    assert!(matches!(
        check_create_role(&manager, &escalate),
        Err(RoleError::Permission(PermissionError::CannotEscalate(_)))
    ));
    let unnamed = CreateRoleRequest { name: String::new(), color: None, permissions: None };
    match check_create_role(&manager, &unnamed) {
        Err(RoleError::Validation(m)) => assert_eq!(m, "name: Role name must be 1-64 characters"),
        other => panic!("unexpected {other:?}"),
    }
    assert_eq!(next_role_position(0), 1);
    assert_eq!(next_role_position(7), 8);
}

#[test]
fn role_change_rules() {
    let manager = ctx(GuildPermissions::MANAGE_ROLES(), Some(10));
    let everyone = RoleRecord { position: 0, is_default: true };
    let low = RoleRecord { position: 50, is_default: false };
    let high = RoleRecord { position: 5, is_default: false };
    assert!(matches!(check_update_role(&manager, None, false, None), Err(RoleError::NotFound)));
    match check_update_role(&manager, Some(everyone), true, None) {
        Err(RoleError::Validation(m)) => assert_eq!(m, "Cannot rename @everyone role"),
        other => panic!("unexpected {other:?}"),
    }
    assert!(check_update_role(&manager, Some(low), true, None).is_ok());
    assert!(matches!(
        check_update_role(&manager, Some(high), false, None),
        Err(RoleError::Permission(PermissionError::RoleHierarchy { .. }))
    ));
    match check_delete_role(&manager, Some(everyone)) {
        Err(RoleError::Validation(m)) => assert_eq!(m, "Cannot delete @everyone role"),
        other => panic!("unexpected {other:?}"),
    }
    assert!(check_delete_role(&manager, Some(low)).is_ok());
    match check_assign_role(&manager, Some(low), false) {
        Err(RoleError::Validation(m)) => assert_eq!(m, "User is not a member of this guild"),
        other => panic!("unexpected {other:?}"),
    }
    assert!(check_assign_role(&manager, Some(low), true).is_ok());
    assert!(check_remove_role(&manager, Some(50)).is_ok());
    assert!(matches!(check_remove_role(&manager, None), Err(RoleError::NotFound)));
    assert!(matches!(require_role_removed(0), Err(RoleError::NotFound)));
}

#[test]
fn role_errors() {
    assert!(matches!(
        role_error_from_permission(PermissionError::NotGuildMember),
        RoleError::NotMember
    ));
    assert_eq!(RoleError::Validation("x".to_string()).message(), "Validation failed: x");
    assert_eq!(RoleError::NotFound.status(), (404, "not_found"));
    assert_eq!(
        RoleError::Permission(PermissionError::ElevationRequired).status(),
        (403, "permission")
    );
}

#[test]
fn emoji_upload_form() {
    let mut form = EmojiUploadForm::new();
    assert!(form.accept_field("other", None, None, 10).is_ok());
    assert!(form.accept_field("name", Some("party".to_string()), None, 10).is_ok());
    assert!(matches!(
        form.accept_field("file", None, Some(vec![0; 11]), 10),
        Err(EmojiError::FileTooLarge { max_size: 10 })
    ));
    assert!(matches!(form.clone().finish(), Err(EmojiError::NoFile)));
    assert!(form.accept_field("file", None, Some(vec![1, 2, 3]), 10).is_ok());
    let (name, data) = form.finish().unwrap();
    assert_eq!((name.as_str(), data), ("party", vec![1, 2, 3]));

    let mut unnamed = EmojiUploadForm::new();
    unnamed.accept_field("file", None, Some(vec![1]), 10).unwrap();
    assert!(matches!(unnamed.finish(), Err(EmojiError::Validation(m)) if m == "Name required"));

    let mut short = EmojiUploadForm::new();
    short.accept_field("file", None, Some(vec![1]), 10).unwrap();
    short.accept_field("name", Some("x".to_string()), None, 10).unwrap();
    assert!(matches!(
        short.finish(),
        Err(EmojiError::Validation(m)) if m == "name: Name must be 2-32 characters"
    ));
    assert_eq!(CreateEmojiRequest { name: "ok".to_string() }.validate().len(), 0);
}

#[test]
fn emoji_image_types() {
    let png = [0x89, b'P', b'N', b'G', b'\r', b'\n', 0x1a, b'\n', 0, 0];
    assert_eq!(emoji_media_type(&png).unwrap(), ("image/png", "png"));
    let gif = b"GIF89a....";
    assert_eq!(emoji_media_type(gif).unwrap(), ("image/gif", "gif"));
    assert!(is_animated("image/gif"));
    assert!(!is_animated("image/png"));
    assert!(matches!(
        emoji_media_type(b"plain text"),
        Err(EmojiError::Validation(m)) if m == "Unable to detect image format"
    ));
    assert!(matches!(
        emoji_media_type(b"BM......"),
        Err(EmojiError::Validation(m))
            if m == "Unsupported image format. Only PNG, JPEG, GIF, and WebP are allowed."
    ));
    assert_eq!(media_for_format(Some(ImageFormatKind::Jpeg)).unwrap(), ("image/jpeg", "jpg"));
}

#[test]
fn emoji_magic_bytes_decide_the_format() {
    assert_eq!(emoji_media_type(&[0xFF, 0xD8, 0xFF, 0xE0]).unwrap(), ("image/jpeg", "jpg"));
    assert_eq!(emoji_media_type(b"GIF87a").unwrap(), ("image/gif", "gif"));
    assert_eq!(emoji_media_type(b"RIFF\x10\x00\x00\x00WEBPVP8 ").unwrap(), ("image/webp", "webp"));
    assert!(emoji_media_type(b"RIFF\x10\x00\x00\x00WAVE").is_err());
    assert!(emoji_media_type(&[0xFF, 0xD8]).is_err());
    let unsupported = "Unsupported image format. Only PNG, JPEG, GIF, and WebP are allowed.";
    let undetected = "Unable to detect image format";
    for (bytes, expected) in [
        (&b"qoif...."[..], unsupported),
        (&b"P5 1 1 255"[..], unsupported),
        (&b"P8"[..], undetected),
        (&b"\0\0\x12\x34ftypavif"[..], unsupported),
        (&b"\0\0\x12\x34ftypheic"[..], undetected),
    ] {
        assert!(matches!(emoji_media_type(bytes), Err(EmojiError::Validation(m)) if m == expected));
    }
}

#[test]
fn emoji_storage_keys() {
    let guild = 0x0123_4567_89ab_cdef_0123_4567_89ab_cdef_u128;
    let emoji = 1u128;
    assert_eq!(
        emoji_object_key(guild, emoji, "png"),
        "emojis/01234567-89ab-cdef-0123-456789abcdef/00000000-0000-0000-0000-000000000001.png"
    );
    assert_eq!(
        emoji_image_url(guild, emoji),
        "/api/guilds/01234567-89ab-cdef-0123-456789abcdef/emojis/00000000-0000-0000-0000-000000000001/image"
    );
    let keys = emoji_cleanup_keys(guild, emoji);
    assert_eq!(keys.len(), 4);
    assert!(keys[3].ends_with(".webp"));
}

#[test]
fn emoji_rules_and_errors() {
    assert!(matches!(require_emoji_member(false), Err(EmojiError::GuildNotFound)));
    assert!(matches!(
        check_emoji_limit(50, 50),
        Err(EmojiError::LimitExceeded(m)) if m == "Maximum number of emojis per guild reached (50)"
    ));
    assert!(matches!(require_storage(false), Err(EmojiError::Storage(m)) if m == "S3 not configured"));
    assert!(matches!(require_emoji(None), Err(EmojiError::EmojiNotFound)));
    assert!(!emoji_edit_needs_permission(7, 7));
    assert!(emoji_edit_needs_permission(7, 8));
    assert!(matches!(emoji_permission_outcome(false), Err(EmojiError::Forbidden)));
    assert_eq!(
        EmojiError::FileTooLarge { max_size: 262144 }.message(),
        "File too large (maximum 262144 bytes)"
    );
    assert_eq!(
        EmojiError::InvalidFileType.response("256 KB"),
        (415, "INVALID_FILE_TYPE", "Invalid file type".to_string(), None)
    );
    assert_eq!(
        EmojiError::FileTooLarge { max_size: 262144 }.response("256 KB"),
        (413, "FILE_TOO_LARGE", "File too large (max 256 KB for emojis)".to_string(), Some(262144))
    );
}

#[test]
fn search_query_rules() {
    assert_eq!(default_limit(), 25);
    assert!(matches!(
        search_term("   "),
        Err(SearchError::InvalidQuery(m)) if m == "Search query cannot be empty"
    ));
    assert!(matches!(
        search_term(" a "),
        Err(SearchError::InvalidQuery(m)) if m == "Search query must be at least 2 characters"
    ));
    // A single two-byte character is long enough.
    assert_eq!(search_term(" é ").unwrap(), "é");
    assert_eq!(search_term("  hello ").unwrap(), "hello");
    assert_eq!(search_window(0, -1), (1, 0));
    assert_eq!(search_window(1000, 30), (100, 30));
    assert_eq!(SearchError::NotMember.response(), (403, "FORBIDDEN", "Not a member of this guild".to_string()));
}

#[test]
fn search_results_show_authors_and_channels() {
    let messages = vec![
        MessageHit { id: 1, channel_id: 10, user_id: 100, content: "hi".to_string(), created_at: 5 },
        MessageHit { id: 2, channel_id: 11, user_id: 101, content: "yo".to_string(), created_at: 6 },
    ];
    let users = vec![UserRecord {
        id: 100,
        username: "alice".to_string(),
        display_name: "Alice".to_string(),
        avatar_url: None,
    }];
    let channels = vec![(10u128, "general".to_string())];
    let results = assemble_results(messages, &users, &channels);
    assert_eq!(results.len(), 2);
    assert_eq!(results[0].author.username, "alice");
    assert_eq!(results[0].channel_name, "general");
    assert_eq!(results[1].author.username, "deleted");
    assert_eq!(results[1].author.display_name, "Deleted User");
    assert_eq!(results[1].author.id, 101);
    assert_eq!(results[1].channel_name, "unknown");
}

#[test]
fn channel_reorder_permission_refusals() {
    assert!(matches!(
        channel_permission_refusal(PermissionError::NotGuildMember),
        GuildError::Forbidden
    ));
    assert!(matches!(
        channel_permission_refusal(PermissionError::ElevationRequired),
        GuildError::Permission(PermissionError::ElevationRequired)
    ));
    let (status, code, _) = channel_permission_refusal(PermissionError::NotGuildMember).response();
    assert_eq!((status, code.as_str()), (403, "FORBIDDEN"));
}

#[test]
fn invite_code_spells_drawn_indices() {
    assert_eq!(invite_code_from_indices(&vec![0, 25, 26, 51, 52, 61, 1, 27]), "AZaz09Bb");
    assert_eq!(invite_code_from_indices(&vec![]), "");
}

#[test]
fn search_access_and_reported_window() {
    assert!(matches!(check_search_access(false, true), Err(SearchError::GuildNotFound)));
    assert!(matches!(check_search_access(true, false), Err(SearchError::NotMember)));
    assert!(check_search_access(true, true).is_ok());
    assert_eq!(reported_window(false, 500, -3), (500, -3));
    assert_eq!(reported_window(true, 500, -3), (100, 0));
}
