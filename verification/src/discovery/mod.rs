//! Guild discovery: browsing public guilds and joining them.

pub mod handlers;
pub mod types;
