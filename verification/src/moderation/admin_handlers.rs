//! The decisions of the admin report endpoints.

use vstd::prelude::*;

use super::filter_handlers::page_window;

verus! {

/// Status a report takes when it is resolved.
#[derive(Debug, Clone, Copy, PartialEq, Eq, Structural)]
pub enum ReportStatus {
    Pending,
    Reviewing,
    Resolved,
    Dismissed,
}

/// The resolution actions an admin may take.
pub open spec fn valid_resolution_actions() -> Seq<Seq<char>> {
    seq!["dismissed"@, "warned"@, "banned"@, "escalated"@]
}

/// The status that resolving with a valid action gives: `Dismissed` for
/// `dismissed`, `Resolved` for the others.
pub open spec fn resolution_status(action: Seq<char>) -> ReportStatus {
    if action == "dismissed"@ {
        ReportStatus::Dismissed
    } else {
        ReportStatus::Resolved
    }
}

/// The page of the report listing: limit clamped to 1..=100, offset at least 0.
pub fn report_list_window(limit: i64, offset: i64) -> (r: (i64, i64))
    ensures
        r.0 == (if limit < 1 {
            1
        } else if limit > 100 {
            100
        } else {
            limit
        }),
        r.1 == (if offset < 0 {
            0
        } else {
            offset
        }),
{
    page_window(limit, offset)
}

/// Validate a resolution action: it must be one of `dismissed`, `warned`,
/// `banned` or `escalated`. On success, the status the report takes:
/// `Dismissed` for `dismissed`, `Resolved` for the others.
pub fn validate_resolution_action(action: &str) -> (r: Result<ReportStatus, String>)
    ensures
        valid_resolution_actions().contains(action@) ==> r == Ok::<ReportStatus, String>(
            resolution_status(action@),
        ),
        !valid_resolution_actions().contains(action@) ==> (r matches Err(m) && m@
            == "Invalid resolution action. Must be one of: dismissed, warned, banned, escalated"@),
{
    let d = crate::text::str_eq(action, "dismissed");
    let w = crate::text::str_eq(action, "warned");
    let b = crate::text::str_eq(action, "banned");
    let e = crate::text::str_eq(action, "escalated");
    let ghost v = valid_resolution_actions();
    assert(v[0] == "dismissed"@ && v[1] == "warned"@ && v[2] == "banned"@ && v[3] == "escalated"@);
    if d {
        return Ok(ReportStatus::Dismissed);
    }
    if w || b || e {
        return Ok(ReportStatus::Resolved);
    }
    assert(!v.contains(action@));
    Err("Invalid resolution action. Must be one of: dismissed, warned, banned, escalated".to_owned())
}

/// The status a claim moves a report to: only a pending report can be
/// claimed, and it is then under review; any other report is not found.
pub open spec fn claim_step(current: ReportStatus) -> Option<ReportStatus> {
    if current == ReportStatus::Pending {
        Some(ReportStatus::Reviewing)
    } else {
        None
    }
}

/// The status a resolution moves a report to: a pending report or one under
/// review takes the status chosen by the resolution; a closed report is not
/// found.
pub open spec fn resolve_step(current: ReportStatus, outcome: ReportStatus) -> Option<ReportStatus> {
    if current == ReportStatus::Pending || current == ReportStatus::Reviewing {
        Some(outcome)
    } else {
        None
    }
}

/// A report is closed once resolved or dismissed.
pub open spec fn is_closed(s: ReportStatus) -> bool {
    s == ReportStatus::Resolved || s == ReportStatus::Dismissed
}

/// The status after an admin claims a report in status `current`, or `None`
/// when the claim matches no report.
pub fn claim_report_status(current: ReportStatus) -> (r: Option<ReportStatus>)
    ensures
        r == claim_step(current),
{
    match current {
        ReportStatus::Pending => Some(ReportStatus::Reviewing),
        _ => None,
    }
}

/// The status after resolving a report in status `current` with an action
/// whose resulting status is `outcome`, or `None` when the report is closed.
pub fn resolve_report_status(current: ReportStatus, outcome: ReportStatus) -> (r: Option<
    ReportStatus,
>)
    ensures
        r == resolve_step(current, outcome),
{
    match current {
        ReportStatus::Pending | ReportStatus::Reviewing => Some(outcome),
        _ => None,
    }
}

/// A closed report stays closed: it can be neither claimed nor resolved
/// again, and resolving an open report with a valid action closes it.
pub proof fn lemma_closed_reports_stay_closed(current: ReportStatus, action: Seq<char>)
    requires
        valid_resolution_actions().contains(action),
    ensures
        is_closed(current) ==> claim_step(current) is None,
        is_closed(current) ==> resolve_step(current, resolution_status(action)) is None,
        !is_closed(current) && current != ReportStatus::Reviewing ==> claim_step(current)
            == Some(ReportStatus::Reviewing),
        !is_closed(current) ==> resolve_step(current, resolution_status(action)) is Some
            && is_closed(resolve_step(current, resolution_status(action))->0),
{
}

} // verus!
