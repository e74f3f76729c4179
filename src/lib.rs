//! Credential resolution and local project/task cache synchronization for a
//! command-line time-tracking assistant.
pub mod favorite;
pub mod config;
pub mod secret_store;
pub mod catalog;
pub mod sync;
