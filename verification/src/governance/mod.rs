//! Data governance: account deletion and personal data exports.

pub mod deletion;
pub mod error;
pub mod export;
pub mod handlers;
pub mod types;
