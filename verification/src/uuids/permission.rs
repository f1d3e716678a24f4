//! Identifiers of permissions, grouped by the service that checks them.

pub mod auth;
pub mod cmd_esc;
pub mod config_db;
pub mod directory;
