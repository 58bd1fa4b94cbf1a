//! Guilds: request rules, invites, roles, custom emojis and message search.

pub mod types;
pub mod handlers;
pub mod invites;
pub mod roles;
pub mod emojis;
pub mod search;
