//! The decisions of the data governance endpoints: requesting and
//! downloading exports, and scheduling or cancelling account deletion.

use vstd::prelude::*;

use super::error::GovError;
use super::types::{CancelDeletionResponse, DeleteAccountRequest, DeleteAccountResponse};
use crate::db::models::AuthMethod;
use crate::ids::{uuid_string, uuid_text};
use crate::text::{push_str, str_eq};

verus! {

/// Days between a deletion request and the deletion.
pub const DELETION_GRACE_DAYS: i64 = 30;

/// Hours after which a pending export job is considered stale.
pub const STALE_EXPORT_JOB_HOURS: i64 = 1;

/// The interval after which a pending export job is stale, as the database
/// reads it.
pub fn stale_export_interval() -> (r: &'static str)
    ensures
        r@ == "1h"@,
{
    "1h"
}

/// A new export needs no export in progress and configured file storage.
pub fn check_export_request(pending_exists: bool, storage_configured: bool) -> (r: Result<
    (),
    GovError,
>)
    ensures
        pending_exists ==> r matches Err(GovError::ExportAlreadyPending),
        !pending_exists && !storage_configured ==> r matches Err(GovError::StorageNotConfigured),
        !pending_exists && storage_configured ==> r is Ok,
{
    if pending_exists {
        Err(GovError::ExportAlreadyPending)
    } else if !storage_configured {
        Err(GovError::StorageNotConfigured)
    } else {
        Ok(())
    }
}

/// A failed insertion of an export job: a uniqueness violation means that
/// another export is in progress.
pub fn export_insert_error(unique_violation: bool, message: String) -> (r: GovError)
    ensures
        unique_violation ==> r matches GovError::ExportAlreadyPending,
        !unique_violation ==> r == GovError::Database(message),
{
    if unique_violation {
        GovError::ExportAlreadyPending
    } else {
        GovError::Database(message)
    }
}

/// The latest export job to download, when one is completed: when it
/// expires and where its archive is.
#[derive(Debug, Clone)]
pub struct CompletedExport {
    pub expires_at: Option<i64>,
    pub s3_key: Option<String>,
}

/// The storage key of the archive to download at `now_ms`: there must be a
/// completed export, not yet expired, whose archive is stored.
pub fn check_export_download(
    storage_configured: bool,
    job: Option<CompletedExport>,
    now_ms: i64,
) -> (r: Result<String, GovError>)
    ensures
        !storage_configured ==> r matches Err(GovError::StorageNotConfigured),
        storage_configured && job is None ==> r matches Err(GovError::ExportNotFound),
        storage_configured && job is Some ==> (match job->0.expires_at {
            Some(e) if e < now_ms => r matches Err(GovError::ExportExpired),
            _ => match job->0.s3_key {
                Some(k) => r == Ok::<String, GovError>(k),
                None => r matches Err(GovError::ExportNotFound),
            },
        }),
{
    if !storage_configured {
        return Err(GovError::StorageNotConfigured);
    }
    let j = match job {
        None => return Err(GovError::ExportNotFound),
        Some(j) => j,
    };
    if let Some(e) = j.expires_at {
        if e < now_ms {
            return Err(GovError::ExportExpired);
        }
    }
    match j.s3_key {
        Some(k) => Ok(k),
        None => Err(GovError::ExportNotFound),
    }
}

/// The download's `Content-Disposition`: an attachment named after the user.
pub open spec fn export_disposition_text(user_id: u128) -> Seq<char> {
    "attachment; filename=\"data-export-"@ + uuid_text(user_id) + ".zip\""@
}

/// The headers of an archive download: its type, its file name, and no
/// content sniffing.
pub fn export_download_headers(user_id: u128) -> (r: Vec<(&'static str, String)>)
    ensures
        r@.len() == 3,
        r@[0].0@ == "content-type"@ && r@[0].1@ == "application/zip"@,
        r@[1].0@ == "content-disposition"@ && r@[1].1@ == export_disposition_text(user_id),
        r@[2].0@ == "x-content-type-options"@ && r@[2].1@ == "nosniff"@,
{
    let mut disposition = "attachment; filename=\"data-export-".to_owned();
    push_str(&mut disposition, uuid_string(user_id).as_str());
    push_str(&mut disposition, ".zip\"");
    let mut out: Vec<(&'static str, String)> = Vec::new();
    out.push(("content-type", "application/zip".to_owned()));
    out.push(("content-disposition", disposition));
    out.push(("x-content-type-options", "nosniff".to_owned()));
    out
}

/// What is known of the account whose deletion is asked for.
#[derive(Debug, Clone, Copy, PartialEq, Eq)]
pub struct DeletionCandidate {
    pub deletion_scheduled: bool,
    pub auth_method: AuthMethod,
    pub has_password_hash: bool,
}

/// How a deletion request is authenticated once its first checks pass.
#[derive(Debug, Clone, Copy, PartialEq, Eq, Structural)]
pub enum DeletionAuth {
    /// A local account: the given password must match the stored hash.
    VerifyPassword,
    /// An OIDC account: the confirmation suffices.
    ConfirmationOnly,
}

/// The first checks of a deletion request, in order: the confirmation must
/// read `DELETE`, the user must exist and have no deletion scheduled, and a
/// local account must give a password and have one stored.
pub fn check_deletion_request(req: &DeleteAccountRequest, user: Option<DeletionCandidate>) -> (r:
    Result<DeletionAuth, GovError>)
    ensures
        req.confirm@ != "DELETE"@ ==> (r matches Err(GovError::Validation(m)) && m@
            == "Confirmation must be the string \"DELETE\""@),
        req.confirm@ == "DELETE"@ && user is None ==> (r matches Err(GovError::Validation(m))
            && m@ == "User not found"@),
        req.confirm@ == "DELETE"@ && user is Some && user->0.deletion_scheduled ==> r matches Err(
            GovError::DeletionAlreadyScheduled,
        ),
        req.confirm@ == "DELETE"@ && user is Some && !user->0.deletion_scheduled
            && user->0.auth_method == AuthMethod::Oidc ==> r == Ok::<DeletionAuth, GovError>(
            DeletionAuth::ConfirmationOnly,
        ),
        req.confirm@ == "DELETE"@ && user is Some && !user->0.deletion_scheduled
            && user->0.auth_method == AuthMethod::Local ==> if req.password is None {
            r matches Err(GovError::Validation(m)) && m@ == "Password is required"@
        } else if !user->0.has_password_hash {
            r matches Err(GovError::PasswordInvalid)
        } else {
            r == Ok::<DeletionAuth, GovError>(DeletionAuth::VerifyPassword)
        },
{
    if !str_eq(req.confirm.as_str(), "DELETE") {
        return Err(GovError::Validation("Confirmation must be the string \"DELETE\"".to_owned()));
    }
    let u = match user {
        None => return Err(GovError::Validation("User not found".to_owned())),
        Some(u) => u,
    };
    if u.deletion_scheduled {
        return Err(GovError::DeletionAlreadyScheduled);
    }
    match u.auth_method {
        AuthMethod::Local => {
            if req.password.is_none() {
                return Err(GovError::Validation("Password is required".to_owned()));
            }
            if !u.has_password_hash {
                return Err(GovError::PasswordInvalid);
            }
            Ok(DeletionAuth::VerifyPassword)
        },
        AuthMethod::Oidc => Ok(DeletionAuth::ConfirmationOnly),
    }
}

/// The verdict of a password check: a failed check or a mismatch refuses.
pub fn password_verdict(verified: Option<bool>) -> (r: Result<(), GovError>)
    ensures
        verified == Some(true) ==> r is Ok,
        verified != Some(true) ==> r matches Err(GovError::PasswordInvalid),
{
    match verified {
        Some(true) => Ok(()),
        _ => Err(GovError::PasswordInvalid),
    }
}

/// Names joined with `, `.
pub open spec fn joined_names(names: Seq<String>) -> Seq<char>
    decreases names.len(),
{
    if names.len() == 0 {
        Seq::empty()
    } else if names.len() == 1 {
        names[0]@
    } else {
        joined_names(names.drop_last()) + ", "@ + names.last()@
    }
}

/// An owner must give their guilds away before deleting their account.
pub fn check_owned_guilds(names: &Vec<String>) -> (r: Result<(), GovError>)
    ensures
        names@.len() == 0 ==> r is Ok,
        names@.len() > 0 ==> (r matches Err(GovError::OwnsGuilds(m)) && m@ == joined_names(
            names@,
        )),
{
    if names.len() == 0 {
        return Ok(());
    }
    let mut out = String::new();
    let mut i: usize = 0;
    while i < names.len()
        invariant
            i <= names@.len(),
            out@ == joined_names(names@.take(i as int)),
        decreases names@.len() - i,
    {
        let ghost pre = names@.take(i as int);
        if i > 0 {
            push_str(&mut out, ", ");
        }
        push_str(&mut out, names[i].as_str());
        proof {
            let next = names@.take(i + 1);
            assert(next.drop_last() =~= pre);
            if i == 0 {
                assert(out@ =~= joined_names(next));
            }
        }
        i += 1;
    }
    assert(names@.take(names@.len() as int) =~= names@);
    Err(GovError::OwnsGuilds(out))
}

/// The calendar date (`YYYY-MM-DD`, UTC) of an instant in milliseconds, as
/// chrono writes it; `None` out of chrono's range.
pub uninterp spec fn utc_date_text(ms: i64) -> Option<Seq<char>>;

/// `chrono::DateTime::<Utc>::from_timestamp_millis(ms)` written with the
/// format `%Y-%m-%d`; `None` when chrono cannot represent the instant.
#[verifier::external_body]
fn utc_date(ms: i64) -> (r: Option<String>)
    ensures
        match r {
            Some(s) => utc_date_text(ms) == Some(s@),
            None => utc_date_text(ms) is None,
        },
{
    chrono::DateTime::<chrono::Utc>::from_timestamp_millis(ms).map(
        |t| t.format("%Y-%m-%d").to_string(),
    )
}

/// The answer to a scheduled deletion, when it can be written.
pub open spec fn deletion_message(date: Seq<char>) -> Seq<char> {
    "Account scheduled for deletion on "@ + date + ". You can cancel within 30 days."@
}

/// Schedules a deletion asked for at `now_ms`: it takes effect 30 days
/// later. `None` when that instant has no calendar date.
pub fn schedule_deletion(now_ms: i64) -> (r: Option<DeleteAccountResponse>)
    requires
        now_ms <= i64::MAX - 2_592_000_000,
    ensures
        ({
            let at = (now_ms + 2_592_000_000) as i64;
            match utc_date_text(at) {
                Some(d) => r matches Some(resp) && resp.deletion_scheduled_at == at
                    && resp.message@ == deletion_message(d),
                None => r is None,
            }
        }),
{
    let at = now_ms + 2_592_000_000;
    match utc_date(at) {
        None => None,
        Some(d) => {
            let mut message = "Account scheduled for deletion on ".to_owned();
            push_str(&mut message, d.as_str());
            push_str(&mut message, ". You can cancel within 30 days.");
            Some(DeleteAccountResponse { deletion_scheduled_at: at, message })
        },
    }
}

/// The answer to a cancellation: it cancels only a scheduled deletion.
pub fn cancel_deletion_outcome(rows_affected: u64) -> (r: Result<
    CancelDeletionResponse,
    GovError,
>)
    ensures
        rows_affected == 0 ==> r matches Err(GovError::NoDeletionPending),
        rows_affected > 0 ==> (r matches Ok(resp) && resp.message@
            == "Account deletion has been cancelled."@),
{
    if rows_affected == 0 {
        Err(GovError::NoDeletionPending)
    } else {
        Ok(CancelDeletionResponse { message: "Account deletion has been cancelled.".to_owned() })
    }
}

} // verus!
