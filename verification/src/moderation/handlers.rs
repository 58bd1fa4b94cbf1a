//! The decisions of the user report endpoint.

use vstd::prelude::*;

verus! {

/// Most reports a user may file per hour.
pub const MAX_REPORTS_PER_HOUR: i64 = 5;

/// Errors of the report endpoints.
#[derive(Debug, Clone, PartialEq, Eq)]
pub enum ReportError {
    /// The request is invalid, with the reason.
    Validation(String),
    /// Too many reports in the last hour.
    RateLimited,
    /// An active report for the same target already exists.
    Duplicate,
    /// The report does not exist.
    NotFound,
    /// Database error, with the database's own message.
    Database(String),
}

fn validation(msg: &str) -> (r: ReportError)
    ensures
        r matches ReportError::Validation(m) && m@ == msg@,
{
    ReportError::Validation(msg.to_owned())
}

/// A user cannot report themselves.
pub fn check_not_self(reporter_id: u128, target_user_id: u128) -> (r: Result<(), ReportError>)
    ensures
        reporter_id == target_user_id ==> (r matches Err(ReportError::Validation(m)) && m@
            == "Cannot report yourself"@),
        reporter_id != target_user_id ==> r is Ok,
{
    if reporter_id == target_user_id {
        return Err(validation("Cannot report yourself"));
    }
    Ok(())
}

/// The reported user must exist.
pub fn check_target_exists(target_exists: bool) -> (r: Result<(), ReportError>)
    ensures
        !target_exists ==> (r matches Err(ReportError::Validation(m)) && m@
            == "Target user not found"@),
        target_exists ==> r is Ok,
{
    if !target_exists {
        return Err(validation("Target user not found"));
    }
    Ok(())
}

/// A reported message must exist and belong to the reported user;
/// `message_author` is the author of the message, `None` when not found.
pub fn check_message_author(message_author: Option<u128>, target_user_id: u128) -> (r: Result<
    (),
    ReportError,
>)
    ensures
        message_author is None ==> (r matches Err(ReportError::Validation(m)) && m@
            == "Target message not found"@),
        message_author matches Some(a) && a != target_user_id ==> (r matches Err(
            ReportError::Validation(m),
        ) && m@ == "Message does not belong to the target user"@),
        message_author == Some(target_user_id) ==> r is Ok,
{
    match message_author {
        None => Err(validation("Target message not found")),
        Some(a) => if a != target_user_id {
            Err(validation("Message does not belong to the target user"))
        } else {
            Ok(())
        },
    }
}

/// The rate limit, given the counter after this report was counted: the
/// first report of a window starts the one-hour expiry, and more than five
/// in the window are refused.
pub fn check_report_rate(count: i64) -> (r: (bool, Result<(), ReportError>))
    ensures
        r.0 == (count == 1),
        count > MAX_REPORTS_PER_HOUR ==> r.1 == Err::<(), ReportError>(ReportError::RateLimited),
        count <= MAX_REPORTS_PER_HOUR ==> r.1 is Ok,
{
    let start_window = count == 1;
    if count > MAX_REPORTS_PER_HOUR {
        return (start_window, Err(ReportError::RateLimited));
    }
    (start_window, Ok(()))
}

} // verus!
