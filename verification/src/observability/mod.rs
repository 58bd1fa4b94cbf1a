//! Observability: the pure parts of the telemetry pipeline (label allowlist,
//! cardinality budget, redaction, query bounds and retention batches).

pub mod ingestion;
pub mod metrics;
pub mod retention;
pub mod storage;
pub mod tracing;
pub mod voice;
