//! Personal data exports: the archive's layout, its manifest, the capped
//! sections, where an archive is stored and what happens to expired ones.

use vstd::prelude::*;

use crate::ids::{uuid_string, uuid_text};
use crate::text::push_str;

verus! {

/// Maximum number of messages in an export.
pub const EXPORT_CAP_MESSAGES: i64 = 500_000;

/// Maximum number of reactions in an export.
pub const EXPORT_CAP_REACTIONS: i64 = 500_000;

/// Maximum number of attachment records in an export.
pub const EXPORT_CAP_ATTACHMENTS: i64 = 100_000;

/// Maximum number of audit log entries in an export.
pub const EXPORT_CAP_AUDIT_LOG: i64 = 100_000;

/// Version of the export format.
pub fn export_format_version() -> (r: &'static str)
    ensures
        r@ == "1.1"@,
{
    "1.1"
}

/// Days an export stays downloadable.
pub const EXPORT_RETENTION_DAYS: i64 = 7;

/// Whether a capped section was cut: it holds as many rows as the cap allows.
pub fn section_truncated(rows: usize, cap: i64) -> (r: bool)
    ensures
        r == (rows as int >= cap as int),
{
    if cap <= 0 {
        true
    } else {
        rows as u64 >= cap as u64
    }
}

/// The capped sections that were cut, in archive order: messages, reactions,
/// attachments, audit log.
pub open spec fn truncated_sections_spec(
    messages: usize,
    reactions: usize,
    attachments: usize,
    audit_log: usize,
) -> Seq<Seq<char>> {
    let a: Seq<Seq<char>> = if messages >= EXPORT_CAP_MESSAGES {
        seq!["messages"@]
    } else {
        seq![]
    };
    let b = if reactions >= EXPORT_CAP_REACTIONS {
        a.push("reactions"@)
    } else {
        a
    };
    let c = if attachments >= EXPORT_CAP_ATTACHMENTS {
        b.push("attachments"@)
    } else {
        b
    };
    if audit_log >= EXPORT_CAP_AUDIT_LOG {
        c.push("audit_log"@)
    } else {
        c
    }
}

/// The sections of an export that were cut at their cap, from the number of
/// rows each capped section holds.
pub fn truncated_sections(
    messages: usize,
    reactions: usize,
    attachments: usize,
    audit_log: usize,
) -> (r: Vec<&'static str>)
    ensures
        r@.map_values(|s: &'static str| s@) == truncated_sections_spec(
            messages,
            reactions,
            attachments,
            audit_log,
        ),
{
    let mut out: Vec<&'static str> = Vec::new();
    if section_truncated(messages, EXPORT_CAP_MESSAGES) {
        out.push("messages");
    }
    let ghost a = out@.map_values(|s: &'static str| s@);
    if section_truncated(reactions, EXPORT_CAP_REACTIONS) {
        out.push("reactions");
        assert(out@.map_values(|s: &'static str| s@) =~= a.push("reactions"@));
    }
    let ghost b = out@.map_values(|s: &'static str| s@);
    if section_truncated(attachments, EXPORT_CAP_ATTACHMENTS) {
        out.push("attachments");
        assert(out@.map_values(|s: &'static str| s@) =~= b.push("attachments"@));
    }
    let ghost c = out@.map_values(|s: &'static str| s@);
    if section_truncated(audit_log, EXPORT_CAP_AUDIT_LOG) {
        out.push("audit_log");
        assert(out@.map_values(|s: &'static str| s@) =~= c.push("audit_log"@));
    }
    assert(out@.map_values(|s: &'static str| s@) =~= truncated_sections_spec(
        messages,
        reactions,
        attachments,
        audit_log,
    ));
    out
}

/// The sections every export lists, in archive order.
pub open spec fn export_sections_spec() -> Seq<Seq<char>> {
    seq![
        "profile"@,
        "messages"@,
        "guilds"@,
        "friends"@,
        "preferences"@,
        "direct_messages"@,
        "blocked_users"@,
        "reactions"@,
        "attachments"@,
        "sessions"@,
        "devices"@,
        "key_backups"@,
        "audit_log"@,
    ]
}

/// A section cut at its cap is one that every export lists.
pub proof fn lemma_truncated_sections_are_listed(
    messages: usize,
    reactions: usize,
    attachments: usize,
    audit_log: usize,
)
    ensures
        forall|i: int|
            0 <= i < truncated_sections_spec(messages, reactions, attachments, audit_log).len()
                ==> export_sections_spec().contains(
                #[trigger] truncated_sections_spec(messages, reactions, attachments, audit_log)[i],
            ),
{
    let t = truncated_sections_spec(messages, reactions, attachments, audit_log);
    let all = export_sections_spec();
    assert(all[1] == "messages"@);
    assert(all[7] == "reactions"@);
    assert(all[8] == "attachments"@);
    assert(all[12] == "audit_log"@);
    assert forall|i: int| 0 <= i < t.len() implies all.contains(#[trigger] t[i]) by {
        if t[i] == "messages"@ {
            assert(all[1] == t[i]);
        } else if t[i] == "reactions"@ {
            assert(all[7] == t[i]);
        } else if t[i] == "attachments"@ {
            assert(all[8] == t[i]);
        } else {
            assert(all[12] == t[i]);
        }
    }
}

/// The sections every export lists.
pub fn export_sections() -> (r: &'static [&'static str])
    ensures
        r@.len() == export_sections_spec().len(),
        forall|i: int| 0 <= i < r@.len() ==> #[trigger] r@[i]@ == export_sections_spec()[i],
{
    &[
        "profile",
        "messages",
        "guilds",
        "friends",
        "preferences",
        "direct_messages",
        "blocked_users",
        "reactions",
        "attachments",
        "sessions",
        "devices",
        "key_backups",
        "audit_log",
    ]
}

/// The parts of an export archive, in the order they are written: one per
/// section (preferences only when the user has any), then the index of the
/// archive.
pub open spec fn archive_parts_spec(has_preferences: bool) -> Seq<Seq<char>> {
    let head: Seq<Seq<char>> = seq!["profile"@, "messages"@, "guilds"@, "friends"@];
    let mid: Seq<Seq<char>> = if has_preferences {
        head.push("preferences"@)
    } else {
        head
    };
    mid + seq![
        "direct_messages"@,
        "blocked_users"@,
        "reactions"@,
        "attachments"@,
        "sessions"@,
        "devices"@,
        "key_backups"@,
        "audit_log"@,
        "manifest"@,
    ]
}

/// The file name of an archive part: its name with a `.json` extension.
pub open spec fn part_file_name(part: Seq<char>) -> Seq<char> {
    part + ".json"@
}

fn archive_parts(has_preferences: bool) -> (r: Vec<&'static str>)
    ensures
        r@.map_values(|s: &'static str| s@) == archive_parts_spec(has_preferences),
{
    let mut out: Vec<&'static str> = vec!["profile", "messages", "guilds", "friends"];
    if has_preferences {
        out.push("preferences");
    }
    out.push("direct_messages");
    out.push("blocked_users");
    out.push("reactions");
    out.push("attachments");
    out.push("sessions");
    out.push("devices");
    out.push("key_backups");
    out.push("audit_log");
    out.push("manifest");
    assert(out@.map_values(|s: &'static str| s@) =~= archive_parts_spec(has_preferences));
    out
}

/// The files of an export archive, in the order they are written.
pub fn archive_files(has_preferences: bool) -> (r: Vec<String>)
    ensures
        r@.len() == archive_parts_spec(has_preferences).len(),
        forall|i: int|
            0 <= i < r@.len() ==> #[trigger] r@[i]@ == part_file_name(
                archive_parts_spec(has_preferences)[i],
            ),
{
    let parts = archive_parts(has_preferences);
    let mut out: Vec<String> = Vec::new();
    let mut i: usize = 0;
    while i < parts.len()
        invariant
            i <= parts@.len(),
            parts@.map_values(|s: &'static str| s@) == archive_parts_spec(has_preferences),
            out@.len() == i,
            forall|k: int|
                0 <= k < i ==> #[trigger] out@[k]@ == part_file_name(
                    archive_parts_spec(has_preferences)[k],
                ),
        decreases parts@.len() - i,
    {
        let mut name = parts[i].to_owned();
        push_str(&mut name, ".json");
        assert(parts@.map_values(|s: &'static str| s@)[i as int] == parts@[i as int]@);
        out.push(name);
        i += 1;
    }
    out
}

/// The manifest of an export archive.
#[derive(Debug, Clone)]
pub struct ExportManifest {
    pub version: &'static str,
    pub exported_at: String,
    pub user_id: String,
    pub sections: Vec<&'static str>,
    pub truncated_sections: Vec<&'static str>,
}

/// The manifest of an export made at `exported_at` (RFC 3339) for a user,
/// with the sections that were cut.
pub fn export_manifest(exported_at: String, user_id: u128, truncated: Vec<&'static str>) -> (r:
    ExportManifest)
    ensures
        r.version@ == "1.1"@,
        r.exported_at == exported_at,
        r.user_id@ == uuid_text(user_id),
        r.sections@.map_values(|s: &'static str| s@) == export_sections_spec(),
        r.truncated_sections == truncated,
{
    let all = export_sections();
    let mut sections: Vec<&'static str> = Vec::new();
    let mut i: usize = 0;
    while i < all.len()
        invariant
            i <= all@.len(),
            all@.len() == export_sections_spec().len(),
            forall|k: int| 0 <= k < all@.len() ==> #[trigger] all@[k]@ == export_sections_spec()[k],
            sections@.map_values(|s: &'static str| s@) == export_sections_spec().take(i as int),
        decreases all@.len() - i,
    {
        let ghost before = sections@.map_values(|s: &'static str| s@);
        assert(all@[i as int]@ == export_sections_spec()[i as int]);
        assert(export_sections_spec().take(i + 1) =~= export_sections_spec().take(i as int).push(
            export_sections_spec()[i as int],
        ));
        sections.push(all[i]);
        assert(sections@.map_values(|s: &'static str| s@) =~= export_sections_spec().take(
            i + 1,
        ));
        i += 1;
    }
    assert(export_sections_spec().take(all@.len() as int) =~= export_sections_spec());
    ExportManifest {
        version: export_format_version(),
        exported_at,
        user_id: uuid_string(user_id),
        sections,
        truncated_sections: truncated,
    }
}

/// Where an export archive is stored: `exports/{user}/{job}.zip`.
pub open spec fn export_key_text(user_id: u128, job_id: u128) -> Seq<char> {
    "exports/"@ + uuid_text(user_id) + "/"@ + uuid_text(job_id) + ".zip"@
}

/// Where an export archive is stored.
pub fn export_object_key(user_id: u128, job_id: u128) -> (r: String)
    ensures
        r@ == export_key_text(user_id, job_id),
{
    let mut out = "exports/".to_owned();
    push_str(&mut out, uuid_string(user_id).as_str());
    push_str(&mut out, "/");
    push_str(&mut out, uuid_string(job_id).as_str());
    push_str(&mut out, ".zip");
    out
}

/// The stored size of an archive of `bytes` bytes; an archive too large for
/// the size column fails the export.
pub fn export_file_size(bytes: u64) -> (r: Result<i64, &'static str>)
    ensures
        bytes <= i64::MAX ==> r == Ok::<i64, &'static str>(bytes as i64),
        bytes > i64::MAX ==> (r matches Err(m) && m@ == "Export archive too large"@),
{
    if bytes <= i64::MAX as u64 {
        Ok(bytes as i64)
    } else {
        Err("Export archive too large")
    }
}

/// When a completed export stops being downloadable: 7 days after `now_ms`.
pub fn export_expires_at(now_ms: i64) -> (r: i64)
    requires
        now_ms <= i64::MAX - 604_800_000,
    ensures
        r == now_ms + 604_800_000,
{
    now_ms + 604_800_000
}

/// Whose inbox is told that an export is ready: the user's email, with their
/// username, when the user exists and has an email.
pub fn export_notification_target(user: Option<(Option<String>, String)>) -> (r: Option<
    (String, String),
>)
    ensures
        match user {
            Some((Some(email), username)) => r == Some((email, username)),
            _ => r is None,
        },
{
    match user {
        Some((Some(email), username)) => Some((email, username)),
        _ => None,
    }
}

/// Whether an expired export job can be marked expired: when it has no
/// stored archive, or its archive was deleted (a failed deletion keeps the
/// job for a later attempt).
pub fn expired_job_clearable(has_archive: bool, archive_deleted: bool) -> (r: bool)
    ensures
        r == (!has_archive || archive_deleted),
{
    !has_archive || archive_deleted
}

} // verus!
