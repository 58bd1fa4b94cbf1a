//! Information pages: platform and guild pages with revisions and categories.

pub mod constants;
pub mod handlers;
pub mod queries;
pub mod reorder;
pub mod types;
