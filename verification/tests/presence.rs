use vc_server::presence::types::{
    validate_unicode_text, Activity, ActivityType, CustomStatus, MAX_ACTIVITY_DETAILS_LEN,
    MAX_ACTIVITY_NAME_LEN,
};

#[test]
fn test_activity_validation_valid() {
    let activity = Activity {
        activity_type: ActivityType::Game,
        name: "Minecraft".to_string(),
        started_at: chrono::Utc::now().timestamp_millis(),
        details: Some("Creative Mode".to_string()),
    };
    assert!(activity.validate().is_ok());
}

#[test]
fn test_activity_validation_empty_name() {
    let activity = Activity {
        activity_type: ActivityType::Game,
        name: String::new(),
        started_at: chrono::Utc::now().timestamp_millis(),
        details: None,
    };
    assert!(activity.validate().is_err());
}

#[test]
fn test_activity_validation_name_too_long() {
    let activity = Activity {
        activity_type: ActivityType::Game,
        name: "x".repeat(MAX_ACTIVITY_NAME_LEN + 1),
        started_at: chrono::Utc::now().timestamp_millis(),
        details: None,
    };
    assert!(activity.validate().is_err());
}

#[test]
fn test_activity_validation_details_too_long() {
    let activity = Activity {
        activity_type: ActivityType::Game,
        name: "Test".to_string(),
        started_at: chrono::Utc::now().timestamp_millis(),
        details: Some("x".repeat(MAX_ACTIVITY_DETAILS_LEN + 1)),
    };
    assert!(activity.validate().is_err());
}

#[test]
fn test_activity_validation_control_characters() {
    let activity = Activity {
        activity_type: ActivityType::Game,
        name: "Test\x00Game".to_string(),
        started_at: chrono::Utc::now().timestamp_millis(),
        details: None,
    };
    assert!(activity.validate().is_err());
}

#[test]
fn test_activity_name_max_length_boundary() {
    let activity = Activity {
        activity_type: ActivityType::Game,
        name: "x".repeat(MAX_ACTIVITY_NAME_LEN),
        started_at: chrono::Utc::now().timestamp_millis(),
        details: None,
    };
    assert!(
        activity.validate().is_ok(),
        "Name at exactly MAX_ACTIVITY_NAME_LEN should pass"
    );
}

#[test]
fn test_activity_details_max_length_boundary() {
    let activity = Activity {
        activity_type: ActivityType::Game,
        name: "Test".to_string(),
        started_at: chrono::Utc::now().timestamp_millis(),
        details: Some("d".repeat(MAX_ACTIVITY_DETAILS_LEN)),
    };
    assert!(
        activity.validate().is_ok(),
        "Details at exactly MAX_ACTIVITY_DETAILS_LEN should pass"
    );
}

#[test]
fn test_validate_unicode_text_valid() {
    assert!(validate_unicode_text("Hello world", 128).is_ok());
    assert!(validate_unicode_text("Café ☕", 128).is_ok());
    assert!(validate_unicode_text("a\u{0301}", 128).is_ok());
}

#[test]
fn test_validate_unicode_text_too_long() {
    let long = "a".repeat(129);
    assert!(validate_unicode_text(&long, 128).is_err());
}

#[test]
fn test_validate_unicode_text_control_chars() {
    assert!(validate_unicode_text("hello\x00world", 128).is_err());
    assert!(validate_unicode_text("hello\x1Fworld", 128).is_err());
}

#[test]
fn test_validate_unicode_text_allows_newlines() {
    assert!(validate_unicode_text("line1\nline2", 128).is_ok());
}

#[test]
fn test_validate_unicode_text_format_chars() {
    assert!(validate_unicode_text("hello\u{200B}world", 128).is_err());
    assert!(validate_unicode_text("hello\u{200C}world", 128).is_err());
}

#[test]
fn test_validate_unicode_text_allows_zwj_emoji() {
    // ZWJ (U+200D) is required for composite emoji sequences
    assert!(validate_unicode_text("👨\u{200D}👩\u{200D}👧\u{200D}👦", 128).is_ok()); // family
    assert!(validate_unicode_text("👩\u{200D}💻", 128).is_ok()); // woman technologist
}

#[test]
fn test_validate_unicode_text_bidi_overrides() {
    assert!(validate_unicode_text("hello\u{202E}world", 128).is_err());
    assert!(validate_unicode_text("hello\u{202D}world", 128).is_err());
    assert!(validate_unicode_text("hello\u{202C}world", 128).is_err());
}

#[test]
fn test_validate_unicode_text_combining_mark_limit() {
    // 3 combining marks on one base: OK
    let ok = "a\u{0301}\u{0302}\u{0303}";
    assert!(validate_unicode_text(ok, 128).is_ok());

    // 4 combining marks on one base: rejected (Zalgo)
    let zalgo = "a\u{0301}\u{0302}\u{0303}\u{0304}";
    assert!(validate_unicode_text(zalgo, 128).is_err());
}

#[test]
fn test_custom_status_validate_valid() {
    let status = CustomStatus {
        text: "In a meeting".to_string(),
        emoji: Some("📅".to_string()),
        expires_at: Some(chrono::Utc::now().timestamp_millis() + 3_600_000),
    };
    assert!(status.validate().is_ok());
}

#[test]
fn test_custom_status_validate_no_emoji() {
    let status = CustomStatus {
        text: "Busy".to_string(),
        emoji: None,
        expires_at: None,
    };
    assert!(status.validate().is_ok());
}

#[test]
fn test_custom_status_validate_empty_text() {
    let status = CustomStatus {
        text: "   ".to_string(),
        emoji: None,
        expires_at: None,
    };
    assert!(status.validate().is_err());
}

#[test]
fn test_custom_status_validate_text_too_long() {
    let status = CustomStatus {
        text: "a".repeat(129),
        emoji: None,
        expires_at: None,
    };
    assert!(status.validate().is_err());
}

#[test]
fn test_custom_status_validate_emoji_too_many_graphemes() {
    let status = CustomStatus {
        text: "hi".to_string(),
        emoji: Some("🎮🎵🎨🎭🎪🎫🎬🎤🎧🎼🎹".to_string()), // 11 emoji
        expires_at: None,
    };
    assert!(status.validate().is_err());
}

#[test]
fn test_custom_status_validate_expires_at_in_past() {
    let status = CustomStatus {
        text: "hi".to_string(),
        emoji: None,
        expires_at: Some(chrono::Utc::now().timestamp_millis() - 3_600_000),
    };
    assert!(status.validate().is_err());
}
