use vc_server::moderation::admin_handlers::{
    claim_report_status, resolve_report_status,
    report_list_window, validate_resolution_action, ReportStatus,
};
use vc_server::moderation::filter_handlers::{
    check_pattern_quota, existing_pattern_check, page_window, regex_check_outcome,
    redos_probe, require_config_entries, update_regex_plan, validate_pattern_length, validate_regex,
    validate_test_content, ExistingCheck, RegexPlan,
};
use vc_server::moderation::filter_types::{default_limit, FilterAction, FilterCategory, FilterError};
use vc_server::moderation::handlers::{
    check_message_author, check_not_self, check_report_rate, check_target_exists, ReportError,
};

fn validation(m: &str) -> FilterError {
    FilterError::Validation(m.to_string())
}

#[test]
fn pattern_length_limits() {
    assert_eq!(validate_pattern_length(""), Err(validation("Pattern must be 1-500 characters")));
    assert!(validate_pattern_length(&"a".repeat(500)).is_ok());
    assert!(validate_pattern_length(&"a".repeat(501)).is_err());
}

#[test]
fn pattern_quota_is_100() {
    assert!(check_pattern_quota(99).is_ok());
    assert_eq!(
        check_pattern_quota(100),
        Err(validation("Maximum of 100 custom patterns per guild"))
    );
}

#[test]
fn config_update_needs_entries() {
    assert_eq!(
        require_config_entries(&[]),
        Err(validation("At least one config entry is required"))
    );
}

#[test]
fn test_content_limits() {
    assert!(validate_test_content("hello").is_ok());
    assert!(validate_test_content("").is_err());
    assert!(validate_test_content(&"x".repeat(4001)).is_err());
}

#[test]
fn listing_windows_are_clamped() {
    assert_eq!(page_window(0, -5), (1, 0));
    assert_eq!(page_window(500, 20), (100, 20));
    assert_eq!(report_list_window(50, 10), (50, 10));
    assert_eq!(default_limit(), 50);
}

#[test]
fn regex_plans() {
    assert_eq!(update_regex_plan(Some(true), true), RegexPlan::ValidateNewPattern);
    assert_eq!(update_regex_plan(Some(false), true), RegexPlan::Nothing);
    assert_eq!(existing_pattern_check(Some(true), false), ExistingCheck::ValidateStoredPattern);
    assert_eq!(existing_pattern_check(None, true), ExistingCheck::ValidateNewPattern);
}

#[test]
fn regex_validation() {
    let (verdict, probe) = validate_regex(r"\bspam\b");
    assert!(verdict.is_ok());
    assert!(!probe.unwrap().matched);
    let (_, probe) = validate_regex("a+");
    assert!(probe.unwrap().matched);
    match validate_regex("(unclosed") {
        (Err(FilterError::Validation(m)), None) => assert!(m.starts_with("Invalid regex: ")),
        other => panic!("unexpected {other:?}"),
    }
    let probe_text = redos_probe();
    assert_eq!(probe_text.len(), 1000);
    assert!(probe_text.chars().all(|c| c == 'a'));
    assert_eq!(
        regex_check_outcome(None, 20_000_000),
        Err(validation("Regex pattern is too slow (possible ReDoS). Simplify the pattern."))
    );
    assert_eq!(
        regex_check_outcome(Some("bad".to_string()), 0),
        Err(validation("Invalid regex: bad"))
    );
}

#[test]
fn filter_names() {
    assert_eq!(FilterCategory::Slurs.as_str(), "slurs");
    assert_eq!(FilterAction::Block.as_str(), "block");
}

#[test]
fn resolution_actions() {
    assert_eq!(validate_resolution_action("dismissed"), Ok(ReportStatus::Dismissed));
    assert_eq!(validate_resolution_action("banned"), Ok(ReportStatus::Resolved));
    assert_eq!(
        validate_resolution_action("deleted"),
        Err("Invalid resolution action. Must be one of: dismissed, warned, banned, escalated"
            .to_string())
    );
}

#[test]
fn report_checks() {
    assert_eq!(
        check_not_self(1, 1),
        Err(ReportError::Validation("Cannot report yourself".to_string()))
    );
    assert!(check_not_self(1, 2).is_ok());
    assert!(check_target_exists(false).is_err());
    assert!(check_message_author(Some(2), 2).is_ok());
    assert_eq!(
        check_message_author(Some(3), 2),
        Err(ReportError::Validation("Message does not belong to the target user".to_string()))
    );
    assert_eq!(check_report_rate(1), (true, Ok(())));
    assert_eq!(check_report_rate(5), (false, Ok(())));
    assert_eq!(check_report_rate(6), (false, Err(ReportError::RateLimited)));
}

#[test]
fn report_status_transitions() {
    assert_eq!(claim_report_status(ReportStatus::Pending), Some(ReportStatus::Reviewing));
    assert_eq!(claim_report_status(ReportStatus::Reviewing), None);
    assert_eq!(claim_report_status(ReportStatus::Resolved), None);
    let dismissed = validate_resolution_action("dismissed").unwrap();
    let banned = validate_resolution_action("banned").unwrap();
    assert_eq!(resolve_report_status(ReportStatus::Pending, dismissed), Some(ReportStatus::Dismissed));
    assert_eq!(resolve_report_status(ReportStatus::Reviewing, banned), Some(ReportStatus::Resolved));
    assert_eq!(resolve_report_status(ReportStatus::Dismissed, banned), None);
    assert_eq!(resolve_report_status(ReportStatus::Resolved, dismissed), None);
}
