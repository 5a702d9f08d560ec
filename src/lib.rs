//! Request and notification dispatch for a language server: routing of
//! inbound messages to deferred tasks, the task and schedule model, the
//! outbound client channel and the correlation of server-issued requests
//! with their responses.
pub mod api;
pub mod client;
pub mod error;
pub mod message;
pub mod schedule;
pub mod with_db;
