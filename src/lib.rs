//! Loading, classifying and lowering modules for an embedded script host,
//! the registry of its host operations, and the decisions of one run.
pub mod capability;
pub mod dialect;
pub mod host;
pub mod laws;
pub mod loader;
