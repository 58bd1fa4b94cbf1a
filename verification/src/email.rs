//! Transactional email: the SMTP settings a mailer needs, and the text of
//! each message.

use vstd::prelude::*;

use crate::text::{push_str, str_eq};

verus! {

/// How the SMTP connection is secured.
#[derive(Debug, Clone, Copy, PartialEq, Eq, Structural)]
pub enum SmtpTlsMode {
    /// TLS from the first byte (`tls`).
    Tls,
    /// No encryption (`none`).
    Plain,
    /// STARTTLS, the default.
    StartTls,
}

/// The security of an SMTP connection named in the configuration: `tls`,
/// `none`, and STARTTLS for anything else.
pub fn smtp_tls_mode(tls: &str) -> (r: SmtpTlsMode)
    ensures
        tls@ == "tls"@ ==> r == SmtpTlsMode::Tls,
        tls@ != "tls"@ && tls@ == "none"@ ==> r == SmtpTlsMode::Plain,
        tls@ != "tls"@ && tls@ != "none"@ ==> r == SmtpTlsMode::StartTls,
{
    if str_eq(tls, "tls") {
        SmtpTlsMode::Tls
    } else if str_eq(tls, "none") {
        SmtpTlsMode::Plain
    } else {
        SmtpTlsMode::StartTls
    }
}

/// The SMTP part of the server configuration.
#[derive(Debug, Clone)]
pub struct SmtpConfig {
    pub host: Option<String>,
    pub username: Option<String>,
    pub password: Option<String>,
    pub from: Option<String>,
    pub tls: String,
    pub port: u16,
}

/// Complete SMTP settings.
#[derive(Debug, Clone)]
pub struct SmtpSettings {
    pub host: String,
    pub username: String,
    pub password: String,
    pub from: String,
    pub mode: SmtpTlsMode,
    pub port: u16,
}

/// The settings of a mailer: host, username, password and sender are each
/// required, in that order, and the first one missing is named in the error.
pub fn check_smtp_config(config: SmtpConfig) -> (r: Result<SmtpSettings, String>)
    ensures
        config.host is None ==> (r matches Err(m) && m@ == "SMTP_HOST is required"@),
        config.host is Some && config.username is None ==> (r matches Err(m) && m@
            == "SMTP_USERNAME is required"@),
        config.host is Some && config.username is Some && config.password is None ==> (r matches Err(
            m,
        ) && m@ == "SMTP_PASSWORD is required"@),
        config.host is Some && config.username is Some && config.password is Some
            && config.from is None ==> (r matches Err(m) && m@ == "SMTP_FROM is required"@),
        config.host is Some && config.username is Some && config.password is Some
            && config.from is Some ==> (r matches Ok(s) && s.host == config.host->0 && s.username
            == config.username->0 && s.password == config.password->0 && s.from
            == config.from->0 && s.port == config.port && (config.tls@ == "tls"@ ==> s.mode
            == SmtpTlsMode::Tls) && (config.tls@ != "tls"@ && config.tls@ == "none"@ ==> s.mode
            == SmtpTlsMode::Plain) && (config.tls@ != "tls"@ && config.tls@ != "none"@ ==> s.mode
            == SmtpTlsMode::StartTls)),
{
    let host = match config.host {
        Some(h) => h,
        None => return Err("SMTP_HOST is required".to_owned()),
    };
    let username = match config.username {
        Some(u) => u,
        None => return Err("SMTP_USERNAME is required".to_owned()),
    };
    let password = match config.password {
        Some(p) => p,
        None => return Err("SMTP_PASSWORD is required".to_owned()),
    };
    let from = match config.from {
        Some(f) => f,
        None => return Err("SMTP_FROM is required".to_owned()),
    };
    let mode = smtp_tls_mode(config.tls.as_str());
    Ok(SmtpSettings { host, username, password, from, mode, port: config.port })
}

/// Subject of a password reset email.
pub fn password_reset_subject() -> (r: &'static str)
    ensures
        r@ == "Password Reset Request"@,
{
    "Password Reset Request"
}

/// Subject of an export notification.
pub fn export_ready_subject() -> (r: &'static str)
    ensures
        r@ == "Your Data Export is Ready"@,
{
    "Your Data Export is Ready"
}

/// Body of a password reset email.
pub open spec fn password_reset_text(username: Seq<char>, token: Seq<char>) -> Seq<char> {
    "Hello "@ + username + ",\n\nA password reset was requested for your account.\n\nYour reset code: "@
        + token
        + "\n\nEnter this code on the password reset page to set a new password.\nThis code expires in 1 hour.\n\nIf you did not request this, you can safely ignore this email.\n"@
}

/// Body of a password reset email for a user, with their reset code.
pub fn password_reset_body(username: &str, reset_token: &str) -> (r: String)
    ensures
        r@ == password_reset_text(username@, reset_token@),
{
    let mut out = "Hello ".to_owned();
    push_str(&mut out, username);
    push_str(
        &mut out,
        ",\n\nA password reset was requested for your account.\n\nYour reset code: ",
    );
    push_str(&mut out, reset_token);
    push_str(
        &mut out,
        "\n\nEnter this code on the password reset page to set a new password.\nThis code expires in 1 hour.\n\nIf you did not request this, you can safely ignore this email.\n",
    );
    out
}

/// Body of an export notification.
pub open spec fn export_ready_text(username: Seq<char>) -> Seq<char> {
    "Hello "@ + username
        + ",\n\nYour data export is ready for download.\n\nYou can download it from your account settings.\n\nThe download link will expire in 7 days.\n"@
}

/// Body of the email that tells a user their data export is ready.
pub fn export_ready_body(username: &str) -> (r: String)
    ensures
        r@ == export_ready_text(username@),
{
    let mut out = "Hello ".to_owned();
    push_str(&mut out, username);
    push_str(
        &mut out,
        ",\n\nYour data export is ready for download.\n\nYou can download it from your account settings.\n\nThe download link will expire in 7 days.\n",
    );
    out
}

} // verus!
