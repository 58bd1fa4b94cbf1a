//! Content moderation: guild content filters and user reports.

pub mod admin_handlers;
pub mod filter_cache;
pub mod filter_handlers;
pub mod filter_types;
pub mod handlers;
pub mod pattern;
