//! Profile snapshot engine: what to capture from a browser profile, how to
//! name, keep and prune archives, and how to restore one safely.
pub mod text;
pub mod filter;
pub mod naming;
pub mod retention;
pub mod sqlite;
pub mod snapshot;
pub mod backup;
pub mod restore;
pub mod options;
pub mod help;
pub mod version;
pub mod config;
pub mod platform;
pub mod commands;
pub mod feedback;
pub mod status;
pub mod debug;
