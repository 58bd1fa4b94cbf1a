use vc_server::db::models::AuthMethod;
use vc_server::discovery::handlers::{
    discover_total, join_discoverable_response, plan_discovery, require_discoverable,
    require_discovery_enabled, DiscoveryError,
};
use vc_server::discovery::types::{parse_tags, DiscoverQuery, DiscoverSort};
use vc_server::email::{
    check_smtp_config, export_ready_body, password_reset_body, smtp_tls_mode, SmtpConfig,
    SmtpTlsMode,
};
use vc_server::governance::deletion::{avatar_key_from_url, deletion_object_keys};
use vc_server::governance::error::GovError;
use vc_server::governance::export::{
    archive_files, export_file_size, export_manifest, export_object_key, expired_job_clearable,
    section_truncated, truncated_sections, EXPORT_CAP_MESSAGES,
};
use vc_server::governance::handlers::{
    cancel_deletion_outcome, check_deletion_request, check_export_download,
    check_export_request, check_owned_guilds, export_download_headers, password_verdict,
    schedule_deletion, CompletedExport, DeletionAuth, DeletionCandidate,
};
use vc_server::governance::types::DeleteAccountRequest;

fn query(q: Option<&str>, tags: Option<Vec<&str>>, limit: Option<i64>, offset: Option<i64>) -> DiscoverQuery {
    DiscoverQuery {
        q: q.map(str::to_string),
        tags: tags.map(|t| t.into_iter().map(str::to_string).collect()),
        sort: DiscoverSort::default(),
        limit,
        offset,
    }
}

#[test]
fn tag_filters_are_split_and_trimmed() {
    assert_eq!(parse_tags("gaming, music,,  art "), vec!["gaming", "music", "art"]);
    assert!(parse_tags("").is_empty());
    assert!(parse_tags(" , ,").is_empty());
    assert_eq!(parse_tags("solo"), vec!["solo"]);
}

#[test]
fn discovery_query_rules() {
    assert!(matches!(require_discovery_enabled(false), Err(DiscoveryError::Disabled)));
    let plan = plan_discovery(query(None, None, None, None)).unwrap();
    assert_eq!((plan.limit, plan.offset), (20, 0));
    assert_eq!(plan.sort, DiscoverSort::Newest);
    assert!(plan.search.is_none() && plan.tags.is_none());
    let plan = plan_discovery(query(Some("  rust  "), Some(vec![]), Some(500), Some(-3))).unwrap();
    assert_eq!(plan.search.as_deref(), Some("rust"));
    assert!(plan.tags.is_none());
    assert_eq!((plan.limit, plan.offset), (50, 0));
    let plan = plan_discovery(query(Some("   "), Some(vec!["a"]), Some(0), Some(20_000))).unwrap();
    assert!(plan.search.is_none());
    assert_eq!(plan.tags, Some(vec!["a".to_string()]));
    assert_eq!((plan.limit, plan.offset), (1, 10_000));
}

#[test]
fn discovery_query_refusals() {
    let long = "q".repeat(201);
    assert!(matches!(
        plan_discovery(query(Some(&long), None, None, None)),
        Err(DiscoveryError::Validation(m)) if m == "Search query too long (max 200 characters)"
    ));
    let many: Vec<&str> = vec!["t"; 11];
    assert!(matches!(
        plan_discovery(query(None, Some(many), None, None)),
        Err(DiscoveryError::Validation(m)) if m == "Maximum 10 tags for filtering"
    ));
    let wide = "w".repeat(33);
    assert!(matches!(
        plan_discovery(query(None, Some(vec!["ok", &wide]), None, None)),
        Err(DiscoveryError::Validation(m)) if m == "Each filter tag must be at most 32 characters"
    ));
    assert_eq!(
        DiscoveryError::Disabled.response(),
        (404, "DISCOVERY_DISABLED", "Guild discovery is not enabled on this server".to_string())
    );
    assert_eq!(DiscoveryError::Validation("x".to_string()).message(), "Validation error: x");
}

#[test]
fn discovery_join() {
    assert!(matches!(require_discoverable(None), Err(DiscoveryError::NotFound)));
    assert_eq!(require_discoverable(Some("G".to_string())).unwrap(), "G");
    assert!(join_discoverable_response(1, "G".to_string(), 0).already_member);
    assert!(!join_discoverable_response(1, "G".to_string(), 1).already_member);
    assert_eq!(discover_total(None), 0);
    assert_eq!(discover_total(Some(42)), 42);
}

fn field(present: bool, value: &str) -> Option<String> {
    if present {
        Some(value.to_string())
    } else {
        None
    }
}

fn smtp(host: bool, user: bool, pass: bool, from: bool) -> SmtpConfig {
    SmtpConfig {
        host: field(host, "localhost"),
        username: field(user, "testuser"),
        password: field(pass, "testpass"),
        from: field(from, "noreply@example.com"),
        tls: "none".to_string(),
        port: 25,
    }
}

#[test]
fn test_new_missing_host() {
    let err = check_smtp_config(smtp(false, true, true, true)).unwrap_err();
    assert!(err.contains("SMTP_HOST"), "Error should mention SMTP_HOST: {err}");
}

#[test]
fn test_new_missing_username() {
    let err = check_smtp_config(smtp(true, false, true, true)).unwrap_err();
    assert!(err.contains("SMTP_USERNAME"), "Error should mention SMTP_USERNAME: {err}");
}

#[test]
fn test_new_missing_password() {
    let err = check_smtp_config(smtp(true, true, false, true)).unwrap_err();
    assert!(err.contains("SMTP_PASSWORD"), "Error should mention SMTP_PASSWORD: {err}");
}

#[test]
fn test_new_missing_from() {
    let err = check_smtp_config(smtp(true, true, true, false)).unwrap_err();
    assert!(err.contains("SMTP_FROM"), "Error should mention SMTP_FROM: {err}");
}

#[test]
fn smtp_settings_and_messages() {
    let s = check_smtp_config(smtp(true, true, true, true)).unwrap();
    assert_eq!(s.mode, SmtpTlsMode::Plain);
    assert_eq!(smtp_tls_mode("tls"), SmtpTlsMode::Tls);
    assert_eq!(smtp_tls_mode("starttls"), SmtpTlsMode::StartTls);
    let body = password_reset_body("ann", "123456");
    assert!(body.starts_with("Hello ann,\n\n"));
    assert!(body.contains("Your reset code: 123456\n"));
    assert!(export_ready_body("bo").ends_with("The download link will expire in 7 days.\n"));
}

#[test]
fn uuid_text_form() {
    assert_eq!(
        export_object_key(0, 0xa1a2a3a4_b1b2_c1c2_d1d2_d3d4d5d6d7d8),
        "exports/00000000-0000-0000-0000-000000000000/a1a2a3a4-b1b2-c1c2-d1d2-d3d4d5d6d7d8.zip"
    );
}

#[test]
fn avatar_keys_and_deleted_objects() {
    assert_eq!(
        avatar_key_from_url("https://cdn.example/avatars/u1/a.png").as_deref(),
        Some("avatars/u1/a.png")
    );
    assert_eq!(avatar_key_from_url("https://cdn.example/img.png"), None);
    let keys = deletion_object_keys(
        Some("avatars/a".to_string()),
        vec!["att/1".to_string(), "att/2".to_string()],
        vec!["exports/x.zip".to_string()],
    );
    assert_eq!(keys, vec!["avatars/a", "att/1", "att/2", "exports/x.zip"]);
    assert_eq!(deletion_object_keys(None, vec![], vec![]).len(), 0);
}

fn delete_req(confirm: &str, password: Option<&str>) -> DeleteAccountRequest {
    DeleteAccountRequest { password: password.map(str::to_string), confirm: confirm.to_string() }
}

#[test]
fn deletion_request_checks() {
    let local = DeletionCandidate {
        deletion_scheduled: false,
        auth_method: AuthMethod::Local,
        has_password_hash: true,
    };
    assert!(matches!(
        check_deletion_request(&delete_req("delete", Some("pw")), Some(local)),
        Err(GovError::Validation(m)) if m == "Confirmation must be the string \"DELETE\""
    ));
    assert!(matches!(
        check_deletion_request(&delete_req("DELETE", Some("pw")), None),
        Err(GovError::Validation(m)) if m == "User not found"
    ));
    let scheduled = DeletionCandidate { deletion_scheduled: true, ..local };
    assert!(matches!(
        check_deletion_request(&delete_req("DELETE", Some("pw")), Some(scheduled)),
        Err(GovError::DeletionAlreadyScheduled)
    ));
    assert!(matches!(
        check_deletion_request(&delete_req("DELETE", None), Some(local)),
        Err(GovError::Validation(m)) if m == "Password is required"
    ));
    let no_hash = DeletionCandidate { has_password_hash: false, ..local };
    assert!(matches!(
        check_deletion_request(&delete_req("DELETE", Some("pw")), Some(no_hash)),
        Err(GovError::PasswordInvalid)
    ));
    assert_eq!(
        check_deletion_request(&delete_req("DELETE", Some("pw")), Some(local)).unwrap(),
        DeletionAuth::VerifyPassword
    );
    let oidc = DeletionCandidate { auth_method: AuthMethod::Oidc, ..local };
    assert_eq!(
        check_deletion_request(&delete_req("DELETE", None), Some(oidc)).unwrap(),
        DeletionAuth::ConfirmationOnly
    );
    assert!(password_verdict(Some(true)).is_ok());
    assert!(matches!(password_verdict(Some(false)), Err(GovError::PasswordInvalid)));
    assert!(matches!(password_verdict(None), Err(GovError::PasswordInvalid)));
}

#[test]
fn owners_must_give_guilds_away() {
    assert!(check_owned_guilds(&vec![]).is_ok());
    let err = check_owned_guilds(&vec!["Alpha".to_string(), "Beta".to_string()]).unwrap_err();
    assert_eq!(err.message(), "Cannot delete account while owning guilds: Alpha, Beta");
    assert_eq!(err.response().0, 409);
}

#[test]
fn deletion_is_scheduled_thirty_days_out() {
    // 2024-01-01T00:00:00Z
    let now = 1_704_067_200_000;
    let resp = schedule_deletion(now).unwrap();
    assert_eq!(resp.deletion_scheduled_at, now + 30 * 86_400_000);
    assert_eq!(
        resp.message,
        "Account scheduled for deletion on 2024-01-31. You can cancel within 30 days."
    );
    assert!(matches!(cancel_deletion_outcome(0), Err(GovError::NoDeletionPending)));
    assert_eq!(cancel_deletion_outcome(1).unwrap().message, "Account deletion has been cancelled.");
}

#[test]
fn export_request_and_download() {
    assert!(matches!(check_export_request(true, true), Err(GovError::ExportAlreadyPending)));
    assert!(matches!(check_export_request(false, false), Err(GovError::StorageNotConfigured)));
    assert!(check_export_request(false, true).is_ok());
    let job = CompletedExport { expires_at: Some(100), s3_key: Some("exports/k.zip".to_string()) };
    assert_eq!(check_export_download(true, Some(job.clone()), 50).unwrap(), "exports/k.zip");
    assert!(matches!(check_export_download(true, Some(job.clone()), 101), Err(GovError::ExportExpired)));
    assert!(matches!(check_export_download(false, Some(job), 50), Err(GovError::StorageNotConfigured)));
    assert!(matches!(check_export_download(true, None, 50), Err(GovError::ExportNotFound)));
    let headers = export_download_headers(1);
    assert_eq!(headers[0], ("content-type", "application/zip".to_string()));
    assert_eq!(
        headers[1].1,
        "attachment; filename=\"data-export-00000000-0000-0000-0000-000000000001.zip\""
    );
    assert_eq!(GovError::Database("x".to_string()).response(), (500, "Internal server error".to_string()));
    assert_eq!(GovError::ExportExpired.response(), (410, "Export archive has expired".to_string()));
}

#[test]
fn export_archive_layout() {
    assert!(section_truncated(500_000, EXPORT_CAP_MESSAGES));
    assert!(!section_truncated(499_999, EXPORT_CAP_MESSAGES));
    assert_eq!(truncated_sections(500_000, 0, 100_000, 0), vec!["messages", "attachments"]);
    assert!(truncated_sections(0, 0, 0, 0).is_empty());
    let files = archive_files(false);
    assert_eq!(files.len(), 13);
    assert!(!files.contains(&"preferences.json".to_string()));
    assert_eq!(archive_files(true)[4], "preferences.json");
    assert_eq!(files[0], "profile.json");
    assert!(files.iter().all(|f| f.ends_with(".json")));
    let manifest = export_manifest("2024-01-01T00:00:00+00:00".to_string(), 2, vec!["messages"]);
    assert_eq!(manifest.version, "1.1");
    assert_eq!(manifest.sections.len(), 13);
    assert_eq!(manifest.user_id, "00000000-0000-0000-0000-000000000002");
    assert_eq!(export_object_key(1, 2), "exports/00000000-0000-0000-0000-000000000001/00000000-0000-0000-0000-000000000002.zip");
    assert_eq!(export_file_size(10), Ok(10));
    assert_eq!(export_file_size(u64::MAX), Err("Export archive too large"));
    assert!(expired_job_clearable(false, false));
    assert!(!expired_job_clearable(true, false));
}
