//! Telemetry retention: rows older than 30 days are deleted in batches.

use vstd::prelude::*;

verus! {

/// Age in days after which telemetry rows are deleted.
pub const RETENTION_DAYS: i32 = 30;

/// Rows deleted per batch.
pub const DELETE_BATCH_SIZE: i64 = 10_000;

/// One step of a batched purge, given the rows the last batch deleted (or
/// `None` when it failed): the new total, and whether to run another batch.
/// Another batch runs only after a full one; a failure ends the purge.
pub fn purge_step(total_deleted: i64, batch: Option<u64>) -> (r: (i64, bool))
    requires
        batch matches Some(n) ==> n <= i64::MAX && total_deleted + n <= i64::MAX,
    ensures
        match batch {
            None => r == (total_deleted, false),
            Some(n) => r == (
                (total_deleted + n) as i64,
                n as int >= DELETE_BATCH_SIZE,
            ),
        },
{
    match batch {
        None => (total_deleted, false),
        Some(n) => {
            let deleted = n as i64;
            (total_deleted + deleted, deleted >= DELETE_BATCH_SIZE)
        },
    }
}

} // verus!
