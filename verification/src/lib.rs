//! Core of a local-first messaging client: the error taxonomy, the resource
//! gateway, the storage protocol of the contact and message store, and the
//! boundary operations that sit in front of them.

pub mod error;
pub mod mcp;
pub mod window_manager;
pub mod commands;
pub mod db;
pub mod listing;
