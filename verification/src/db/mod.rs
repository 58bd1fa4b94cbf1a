//! Data model types shared with the database layer.

pub mod config;
pub mod models;
pub mod user_features;
pub mod unread;
pub mod search;
