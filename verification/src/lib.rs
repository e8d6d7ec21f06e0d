//! Detection and import core for third-party game launchers.
//!
//! The library discovers which of a fixed set of launchers is installed
//! (from probe outcomes that the caller gathers from the OS), enumerates
//! the games each launcher owns, and imports a selected set of games into
//! the target platform's catalog, reporting per-item success and failure.

pub mod model;
pub mod text;
pub mod registry;
pub mod catalog;
pub mod detect;
pub mod import;
pub mod steam;
