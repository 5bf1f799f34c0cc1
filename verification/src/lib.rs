//! Mirrors a remote hierarchical file share onto local disk.
//!
//! The crate discovers the folder/file tree behind a share identifier
//! (driven step by step through a builder state machine, so that the
//! network fetches themselves stay outside the library), flattens the
//! tree into a list of download tasks, and decides for each task whether
//! a download is needed or an existing local file of matching size lets
//! it be skipped.

pub mod api;
pub mod builder;
pub mod executor;
pub mod plan;
pub mod sanitize;
pub mod tree;
