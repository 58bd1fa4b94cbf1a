//! Errors of the data governance endpoints and how they are answered.

use vstd::prelude::*;

use crate::text::push_str;

verus! {

/// A refused data governance request.
#[derive(Debug, Clone)]
pub enum GovError {
    ExportNotFound,
    ExportAlreadyPending,
    ExportExpired,
    DeletionAlreadyScheduled,
    NoDeletionPending,
    PasswordInvalid,
    OwnsGuilds(String),
    OidcPasswordNotSupported,
    StorageNotConfigured,
    Validation(String),
    /// A database failure, with the database's own message.
    Database(String),
}

/// The text of a governance error.
pub open spec fn gov_error_text(e: GovError) -> Seq<char> {
    match e {
        GovError::ExportNotFound => "Export job not found"@,
        GovError::ExportAlreadyPending => "An export is already in progress"@,
        GovError::ExportExpired => "Export archive has expired"@,
        GovError::DeletionAlreadyScheduled => "Account deletion already scheduled"@,
        GovError::NoDeletionPending => "No pending deletion to cancel"@,
        GovError::PasswordInvalid => "Password verification failed"@,
        GovError::OwnsGuilds(names) => "Cannot delete account while owning guilds: "@ + names@,
        GovError::OidcPasswordNotSupported => "OIDC users must provide account confirmation"@,
        GovError::StorageNotConfigured => "File storage not configured"@,
        GovError::Validation(m) => "Validation error: "@ + m@,
        GovError::Database(m) => m@,
    }
}

/// The HTTP status and message that answer a governance error: the error's
/// text, but a generic one for database failures.
pub open spec fn gov_error_response(e: GovError) -> (u16, Seq<char>) {
    match e {
        GovError::ExportNotFound => (404, gov_error_text(e)),
        GovError::ExportAlreadyPending => (409, gov_error_text(e)),
        GovError::ExportExpired => (410, gov_error_text(e)),
        GovError::DeletionAlreadyScheduled => (409, gov_error_text(e)),
        GovError::NoDeletionPending => (404, gov_error_text(e)),
        GovError::PasswordInvalid => (401, gov_error_text(e)),
        GovError::OwnsGuilds(_) => (409, gov_error_text(e)),
        GovError::OidcPasswordNotSupported => (400, gov_error_text(e)),
        GovError::StorageNotConfigured => (503, gov_error_text(e)),
        GovError::Validation(_) => (400, gov_error_text(e)),
        GovError::Database(_) => (500, "Internal server error"@),
    }
}

fn with_prefix(prefix: &str, rest: &String) -> (r: String)
    ensures
        r@ == prefix@ + rest@,
{
    let mut out = prefix.to_owned();
    push_str(&mut out, rest.as_str());
    out
}

impl GovError {
    /// The error's text.
    pub fn message(&self) -> (r: String)
        ensures
            r@ == gov_error_text(*self),
    {
        match self {
            GovError::ExportNotFound => "Export job not found".to_owned(),
            GovError::ExportAlreadyPending => "An export is already in progress".to_owned(),
            GovError::ExportExpired => "Export archive has expired".to_owned(),
            GovError::DeletionAlreadyScheduled => "Account deletion already scheduled".to_owned(),
            GovError::NoDeletionPending => "No pending deletion to cancel".to_owned(),
            GovError::PasswordInvalid => "Password verification failed".to_owned(),
            GovError::OwnsGuilds(names) => with_prefix(
                "Cannot delete account while owning guilds: ",
                names,
            ),
            GovError::OidcPasswordNotSupported => {
                "OIDC users must provide account confirmation".to_owned()
            },
            GovError::StorageNotConfigured => "File storage not configured".to_owned(),
            GovError::Validation(m) => with_prefix("Validation error: ", m),
            GovError::Database(m) => m.clone(),
        }
    }

    /// The HTTP status and message of the answer.
    pub fn response(&self) -> (r: (u16, String))
        ensures
            (r.0, r.1@) == gov_error_response(*self),
    {
        let status: u16 = match self {
            GovError::ExportNotFound => 404,
            GovError::ExportAlreadyPending => 409,
            GovError::ExportExpired => 410,
            GovError::DeletionAlreadyScheduled => 409,
            GovError::NoDeletionPending => 404,
            GovError::PasswordInvalid => 401,
            GovError::OwnsGuilds(_) => 409,
            GovError::OidcPasswordNotSupported => 400,
            GovError::StorageNotConfigured => 503,
            GovError::Validation(_) => 400,
            GovError::Database(_) => {
                return (500, "Internal server error".to_owned());
            },
        };
        (status, self.message())
    }
}

} // verus!
