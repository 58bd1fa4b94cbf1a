//! User presence: rich activities and custom statuses.

pub mod types;
