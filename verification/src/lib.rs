//! Verified core of a self-hosted voice and text chat server.

pub mod clock;
pub mod db;
pub mod discovery;
pub mod email;
pub mod governance;
pub mod guild;
pub mod ids;
pub mod permissions;
pub mod moderation;
pub mod observability;
pub mod pages;
pub mod presence;
pub mod text;
pub mod validation;
