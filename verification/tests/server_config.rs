use vc_server::db::config::{auth_methods_allowed, setup_complete, ConfigRead};
use vc_server::db::models::AuthMethodsConfig;

#[test]
fn auth_methods_fall_back_to_local_only() {
    let stored = AuthMethodsConfig { local: false, oidc: true };
    assert_eq!(auth_methods_allowed(ConfigRead::Decoded(stored)), Ok(stored));
    let fallback = AuthMethodsConfig { local: true, oidc: false };
    assert_eq!(auth_methods_allowed(ConfigRead::Malformed), Ok(fallback));
    assert_eq!(auth_methods_allowed(ConfigRead::Missing), Ok(fallback));
    assert_eq!(
        auth_methods_allowed(ConfigRead::Failed("connection refused".to_string())),
        Err("connection refused".to_string())
    );
}

#[test]
fn setup_flag_defaults_to_incomplete() {
    assert_eq!(setup_complete::<String>(Ok(Some(true))), Ok(true));
    assert_eq!(setup_complete::<String>(Ok(Some(false))), Ok(false));
    assert_eq!(setup_complete::<String>(Ok(None)), Ok(false));
    assert_eq!(setup_complete(Err("down".to_string())), Err("down".to_string()));
}
