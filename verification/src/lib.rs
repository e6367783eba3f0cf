//! Persistence backend for a single browser-editable wiki document.
//!
//! The library holds the verified core of the server: snapshot naming,
//! the request dispatcher with its three handlers, and the
//! backup-then-promote update protocol over a document store.

pub mod http;
pub mod naming;
pub mod protocol;
pub mod store;

pub use naming::gen_backup_filename;
