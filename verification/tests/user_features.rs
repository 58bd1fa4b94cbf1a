use vc_server::db::user_features::UserFeatures;

#[test]
fn test_premium_video_bit() {
    assert_eq!(UserFeatures::PREMIUM_VIDEO().bits(), 1);
}

#[test]
fn user_features_test_default_is_empty() {
    assert_eq!(UserFeatures::default(), UserFeatures::empty());
    assert!(!UserFeatures::default().has_premium_video());
}

#[test]
fn test_from_db_and_to_db_roundtrip() {
    let original = UserFeatures::PREMIUM_VIDEO();
    let db_value = original.to_db();
    let restored = UserFeatures::from_db(db_value);
    assert_eq!(original, restored);
}

#[test]
fn user_features_test_from_db_with_zero() {
    let features = UserFeatures::from_db(0);
    assert!(features.is_empty());
    assert!(!features.has_premium_video());
}

#[test]
fn user_features_test_from_db_truncates_unknown_bits() {
    // Set a bit beyond our defined features (bit 62)
    let db_value: i64 = (1_i64 << 0) | (1_i64 << 62);
    let features = UserFeatures::from_db(db_value);

    // Should have PREMIUM_VIDEO but unknown bit should be truncated
    assert!(features.has_premium_video());
    assert_eq!(features.bits(), 1);
}

#[test]
fn test_has_premium_video() {
    let with_premium = UserFeatures::PREMIUM_VIDEO();
    let without_premium = UserFeatures::empty();

    assert!(with_premium.has_premium_video());
    assert!(!without_premium.has_premium_video());
}

#[test]
fn user_features_negative_db_value_keeps_known_bit_only() {
    let features = UserFeatures::from_db(-1);
    assert!(features.has_premium_video());
    assert_eq!(features.to_db(), 1);
}
