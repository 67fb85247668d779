//! A configuration that follows its file on disk.
//!
//! The library holds the decisions of a live-reloading configuration: which
//! directory is watched for a file, which change events call for a reload, how
//! a failed read is classified, and how a session moves from its first load to
//! watching while the last accepted data stays in force.
pub mod apply;
pub mod error;
pub mod event;
pub mod loader;
pub mod session;
pub mod target;
