//! Resolution and fetch engine for a modpack and server build tool.
//!
//! Addons are described declaratively, resolved by a source resolver into an
//! ordered list of file operations, and those operations are driven against a
//! local cache by a small state machine.

pub mod addon;
pub mod step;
pub mod modrinth;
pub mod cache;
pub mod accessor;
