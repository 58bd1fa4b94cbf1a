# vc_server

The decision-making core of a self-hosted voice and text chat server, written in
Verus. Every function in `src/` carries a `requires`/`ensures` contract. The
verifier proves the contracts of the library's own functions; the few thin
wrappers around std and outside crates (marked `#[verifier::external_body]`,
each with a doc comment naming the call) have contracts that are trusted,
not proved.

## Layout

- `src/permissions` — guild permission bits, permission resolution (owner,
  @everyone, roles, channel overrides), role management and moderation rules,
  system-admin permissions, default roles.
- `src/guild` — guild, invite, role, emoji and message-search request checks.
- `src/pages` — information pages: slugs, content hashes, validation, limits,
  reordering.
- `src/discovery`, `src/governance`, `src/moderation`, `src/presence` — guild
  discovery, data export and account deletion, reports and content filters,
  presence validation.
- `src/db` — unread aggregation, search query text, feature flags, config
  fallbacks.
- `src/observability` — telemetry ingestion filters, storage bounds, redaction.
- `src/text.rs`, `src/validation.rs`, `src/ids.rs`, `src/clock.rs`, `src/email.rs`
  — shared text helpers and the thin, documented calls into outside crates.
- `tests/` — executable tests against the compiled library.
- `app/` — unverified glue: the entry point, serde copies of library types,
  and the floating-point health and percentile computations.

The database, HTTP and telemetry plumbing of the server is not part of this
crate: the library takes the values those layers read and returns the values
they write.
