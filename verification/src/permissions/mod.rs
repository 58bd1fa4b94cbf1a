//! Two-tier permission model: platform-level system permissions and
//! per-guild role-based permissions.

pub mod guild;
pub mod models;
pub mod queries;
pub mod resolver;
pub mod system;
pub mod helpers;
