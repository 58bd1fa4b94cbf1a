//! Data governance request and response types; times are milliseconds since
//! the epoch.

use vstd::prelude::*;

verus! {

/// Request to delete one's account.
#[derive(Debug, Clone)]
pub struct DeleteAccountRequest {
    /// Current password (required for local accounts).
    pub password: Option<String>,
    /// Must be `DELETE` to proceed.
    pub confirm: String,
}

/// Answer to a deletion request.
#[derive(Debug, Clone)]
pub struct DeleteAccountResponse {
    /// When the account will be deleted for good.
    pub deletion_scheduled_at: i64,
    pub message: String,
}

/// Answer to a cancelled deletion.
#[derive(Debug, Clone)]
pub struct CancelDeletionResponse {
    pub message: String,
}

/// State of a data export job.
#[derive(Debug, Clone)]
pub struct ExportJobResponse {
    pub id: u128,
    /// pending, processing, completed, failed or expired.
    pub status: String,
    pub file_size_bytes: Option<i64>,
    pub expires_at: Option<i64>,
    pub error_message: Option<String>,
    pub created_at: i64,
    pub completed_at: Option<i64>,
}

} // verus!
