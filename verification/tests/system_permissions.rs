use vc_server::permissions::system::SystemPermission;

#[test]
fn test_action_names_are_snake_case() {
    for perm in SystemPermission::all() {
        let name = perm.action_name();
        assert!(
            name.chars().all(|c| c.is_ascii_lowercase() || c == '_'),
            "Action name '{}' should be snake_case",
            name
        );
    }
}

#[test]
fn test_action_names_are_unique() {
    let all_perms = SystemPermission::all();
    let names: Vec<&str> = all_perms.iter().map(|p| p.action_name()).collect();

    for (i, name) in names.iter().enumerate() {
        for (j, other_name) in names.iter().enumerate() {
            if i != j {
                assert_ne!(name, other_name, "Duplicate action name found: {}", name);
            }
        }
    }
}

#[test]
fn test_all_returns_all_variants() {
    let all = SystemPermission::all();
    assert_eq!(all.len(), 11);

    // Verify each variant is present
    assert!(all.contains(&SystemPermission::ViewAllGuilds));
    assert!(all.contains(&SystemPermission::SuspendGuild));
    assert!(all.contains(&SystemPermission::DeleteGuild));
    assert!(all.contains(&SystemPermission::AssignGuildOwner));
    assert!(all.contains(&SystemPermission::ViewAllUsers));
    assert!(all.contains(&SystemPermission::GlobalBanUser));
    assert!(all.contains(&SystemPermission::ViewAuditLog));
    assert!(all.contains(&SystemPermission::SendAnnouncement));
    assert!(all.contains(&SystemPermission::ManageSettings));
    assert!(all.contains(&SystemPermission::UseBreakGlass));
    assert!(all.contains(&SystemPermission::ReviewBreakGlass));
}

#[test]
fn test_view_all_guilds_action_name() {
    assert_eq!(
        SystemPermission::ViewAllGuilds.action_name(),
        "view_all_guilds"
    );
}

#[test]
fn test_suspend_guild_action_name() {
    assert_eq!(
        SystemPermission::SuspendGuild.action_name(),
        "suspend_guild"
    );
}

#[test]
fn test_delete_guild_action_name() {
    assert_eq!(SystemPermission::DeleteGuild.action_name(), "delete_guild");
}

#[test]
fn test_assign_guild_owner_action_name() {
    assert_eq!(
        SystemPermission::AssignGuildOwner.action_name(),
        "assign_guild_owner"
    );
}

#[test]
fn test_view_all_users_action_name() {
    assert_eq!(
        SystemPermission::ViewAllUsers.action_name(),
        "view_all_users"
    );
}

#[test]
fn test_global_ban_user_action_name() {
    assert_eq!(
        SystemPermission::GlobalBanUser.action_name(),
        "global_ban_user"
    );
}

#[test]
fn test_view_audit_log_action_name() {
    assert_eq!(
        SystemPermission::ViewAuditLog.action_name(),
        "view_audit_log"
    );
}

#[test]
fn test_send_announcement_action_name() {
    assert_eq!(
        SystemPermission::SendAnnouncement.action_name(),
        "send_announcement"
    );
}

#[test]
fn test_manage_settings_action_name() {
    assert_eq!(
        SystemPermission::ManageSettings.action_name(),
        "manage_settings"
    );
}

#[test]
fn test_use_break_glass_action_name() {
    assert_eq!(
        SystemPermission::UseBreakGlass.action_name(),
        "use_break_glass"
    );
}

#[test]
fn test_review_break_glass_action_name() {
    assert_eq!(
        SystemPermission::ReviewBreakGlass.action_name(),
        "review_break_glass"
    );
}

#[test]
fn test_descriptions_are_not_empty() {
    for perm in SystemPermission::all() {
        let desc = perm.description();
        assert!(
            !desc.is_empty(),
            "Description for {:?} should not be empty",
            perm
        );
    }
}

#[test]
fn system_test_clone() {
    let original = SystemPermission::SuspendGuild;
    let cloned = original;
    assert_eq!(original, cloned);
}

#[test]
fn system_test_debug_format() {
    let perm = SystemPermission::GlobalBanUser;
    let debug_str = format!("{:?}", perm);
    assert_eq!(debug_str, "GlobalBanUser");
}

#[test]
fn test_equality() {
    assert_eq!(
        SystemPermission::ViewAllGuilds,
        SystemPermission::ViewAllGuilds
    );
    assert_ne!(
        SystemPermission::ViewAllGuilds,
        SystemPermission::ViewAllUsers
    );
}

#[test]
fn test_hash() {
    let mut set = std::collections::HashSet::new();
    set.insert(SystemPermission::ViewAllGuilds);
    set.insert(SystemPermission::SuspendGuild);
    set.insert(SystemPermission::ViewAllGuilds); // Duplicate

    assert_eq!(set.len(), 2);
}

