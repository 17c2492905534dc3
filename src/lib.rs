//! Reading the version metadata of a file's version resource: resolving the
//! declared translation, building the structured lookup paths, normalising the
//! string values that come back, and choosing among the candidate translations.
//!
//! The operating system's resource primitives (loading the block and querying
//! it by path) stay with the caller; the types here take what they return as
//! plain values.

pub mod field;
pub mod record;
pub mod query;
pub mod translation;

pub use query::VersionQuery;
pub use record::{VersionInfo, VersionInfoOs};
