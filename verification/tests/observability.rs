use vc_server::observability::ingestion::{
    allowed_label_keys, captured_level_name, extract_domain, filter_label_entries,
    is_allowed_label_key, span_domain, span_duration_ms, CardinalityBudget, LogLevel,
    MAX_CARDINALITY_PER_METRIC,
};
use vc_server::observability::retention::{purge_step, DELETE_BATCH_SIZE, RETENTION_DAYS};
use vc_server::observability::storage::{
    cap_page_size, clamp_from_time, escape_ilike_pattern, MAX_PAGE_SIZE, MAX_TIME_RANGE_DAYS,
    MILLIS_PER_DAY,
};
use vc_server::observability::tracing::is_forbidden_attribute_key;
use vc_server::observability::voice::{JITTER_SLA_MS, W_CRASH, W_JITTER, W_JOIN, W_LOSS};

fn labels(pairs: &[(&str, &str)]) -> Vec<(String, String)> {
    pairs.iter().map(|(k, v)| (k.to_string(), v.to_string())).collect()
}

#[test]
fn extract_domain_from_module_path() {
    assert_eq!(extract_domain("vc_server::auth::handlers"), "auth");
    assert_eq!(extract_domain("vc_server::voice::call_handlers"), "voice");
    assert_eq!(extract_domain("vc_server::chat::messages"), "chat");
    assert_eq!(extract_domain("unknown_module"), "unknown");
}

#[test]
fn filter_labels_removes_non_allowlisted() {
    let input = labels(&[
        ("http.route", "/api/v1/users/{id}"),
        ("http.response.status_code", "200"),
        ("user_id", "12345"),
        ("ip_address", "192.168.1.1"),
    ]);
    let filtered = filter_label_entries(input);
    let keys: Vec<&str> = filtered.iter().map(|(k, _)| k.as_str()).collect();
    assert!(keys.contains(&"http.route"));
    assert!(keys.contains(&"http.response.status_code"));
    assert!(!keys.contains(&"user_id"));
    assert!(!keys.contains(&"ip_address"));
}

#[test]
fn filter_labels_handles_empty() {
    let filtered = filter_label_entries(labels(&[]));
    assert!(filtered.is_empty());
}

#[test]
fn allowed_label_keys_matches_contract() {
    let keys = allowed_label_keys();
    // Contract §6.1 specifies 13 allowed labels
    assert_eq!(keys.len(), 13);
    assert!(keys.contains(&"http.route"));
    assert!(keys.contains(&"outcome"));
    assert!(keys.contains(&"error.type"));
}

#[test]
fn attributes_to_filtered_labels_filters_correctly() {
    let attrs = labels(&[
        ("http.route", "/api/v1/test"),
        ("user_id", "abc123"),
        ("outcome", "success"),
    ]);
    let filtered = filter_label_entries(attrs);
    assert_eq!(filtered.len(), 2);
    assert_eq!(filtered[0].0, "http.route");
    assert_eq!(filtered[1].0, "outcome");
}

#[test]
fn cardinality_budget_enforced() {
    assert_eq!(MAX_CARDINALITY_PER_METRIC, 100);
}

#[test]
fn cardinality_budget_counts_each_metric_separately() {
    let mut budget = CardinalityBudget::new();
    for _ in 0..MAX_CARDINALITY_PER_METRIC {
        assert!(budget.try_count("kaiku_http_requests_total"));
    }
    assert!(!budget.try_count("kaiku_http_requests_total"));
    assert!(!budget.try_count("kaiku_http_requests_total"));
    assert!(budget.try_count("kaiku_ws_messages_total"));
}

#[test]
fn label_allowlist_lookup() {
    assert!(is_allowed_label_key("db.sql.table"));
    assert!(!is_allowed_label_key("db.statement"));
    assert!(!is_allowed_label_key(""));
}

#[test]
fn span_domain_is_prefix_before_dot() {
    assert_eq!(span_domain("auth.login"), "auth");
    assert_eq!(span_domain("voice"), "voice");
    assert_eq!(span_domain(".hidden"), "");
}

#[test]
fn span_duration_is_capped() {
    assert_eq!(span_duration_ms(1_500), 1_500);
    assert_eq!(span_duration_ms(u128::MAX), i32::MAX);
}

#[test]
fn only_warn_and_error_logs_are_captured() {
    assert_eq!(captured_level_name(LogLevel::Error), Some("ERROR"));
    assert_eq!(captured_level_name(LogLevel::Warn), Some("WARN"));
    assert_eq!(captured_level_name(LogLevel::Info), None);
    assert_eq!(captured_level_name(LogLevel::Debug), None);
    assert_eq!(captured_level_name(LogLevel::Trace), None);
}

#[test]
fn retention_days_is_30() {
    assert_eq!(RETENTION_DAYS, 30);
}

#[test]
fn purge_continues_only_after_full_batch() {
    assert_eq!(purge_step(0, Some(DELETE_BATCH_SIZE as u64)), (DELETE_BATCH_SIZE, true));
    assert_eq!(purge_step(10_000, Some(42)), (10_042, false));
    assert_eq!(purge_step(7, None), (7, false));
}

#[test]
fn clamp_from_time_within_range() {
    let to = chrono::Utc::now().timestamp_millis();
    let from = to - 7 * MILLIS_PER_DAY;
    let clamped = clamp_from_time(from, to);
    assert_eq!(clamped, from);
}

#[test]
fn clamp_from_time_exceeds_range() {
    let to = chrono::Utc::now().timestamp_millis();
    let from = to - 60 * MILLIS_PER_DAY;
    let clamped = clamp_from_time(from, to);
    let expected = to - MAX_TIME_RANGE_DAYS * MILLIS_PER_DAY;
    assert_eq!(clamped, expected);
}

#[test]
fn max_page_size_is_100() {
    assert_eq!(MAX_PAGE_SIZE, 100);
}

#[test]
fn page_size_is_capped() {
    assert_eq!(cap_page_size(500), 100);
    assert_eq!(cap_page_size(25), 25);
}

#[test]
fn escape_ilike_pattern_handles_metacharacters() {
    assert_eq!(escape_ilike_pattern("hello%world"), "hello\\%world");
    assert_eq!(escape_ilike_pattern("test_value"), "test\\_value");
    assert_eq!(escape_ilike_pattern("normal"), "normal");
    assert_eq!(escape_ilike_pattern("a\\b%c_d"), "a\\\\b\\%c\\_d");
}

#[test]
fn redaction_key_match_works() {
    assert!(is_forbidden_attribute_key("http.request.body"));
    assert!(is_forbidden_attribute_key("user_email"));
    assert!(is_forbidden_attribute_key("authorization"));
    assert!(!is_forbidden_attribute_key("channel_id"));
}

#[test]
fn redaction_ignores_case() {
    assert!(is_forbidden_attribute_key("Authorization"));
    assert!(is_forbidden_attribute_key("USER_PASSWORD"));
}

#[test]
fn score_weights_sum_to_100() {
    let total = f64::from(W_JOIN) + f64::from(W_LOSS) + f64::from(W_JITTER) + f64::from(W_CRASH);
    assert!((total - 100.0).abs() < f64::EPSILON);
}

#[test]
fn jitter_sla_matches_spec() {
    // Project spec: Voice-Latenz < 50ms
    assert!((f64::from(JITTER_SLA_MS) - 50.0).abs() < f64::EPSILON);
}

#[test]
fn perfect_health_is_100() {
    // All metrics perfect: join=1.0, loss=0.0, jitter=0.0, crash=0.0
    let score = 1.0_f64.mul_add(
        f64::from(W_JOIN),
        1.0_f64.mul_add(
            f64::from(W_LOSS),
            1.0_f64.mul_add(f64::from(W_JITTER), 1.0 * f64::from(W_CRASH)),
        ),
    );
    assert!((score - 100.0).abs() < f64::EPSILON);
}

#[test]
fn worst_health_is_zero() {
    // All metrics worst: join=0.0, loss=1.0, jitter>=50ms, crash=1.0
    let score = 0.0_f64.mul_add(
        f64::from(W_JOIN),
        0.0_f64.mul_add(
            f64::from(W_LOSS),
            0.0_f64.mul_add(f64::from(W_JITTER), 0.0 * f64::from(W_CRASH)),
        ),
    );
    assert!(score.abs() < f64::EPSILON);
}
