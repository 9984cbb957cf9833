//! A verified core for a catalog crawler: walking a hierarchical tree of
//! category and article nodes, planning rate-limited article fetches,
//! validating decoded documents, caching raw document bytes, and formatting
//! the final filtered export.
//!
//! All input/output (HTTP, the filesystem, the command line) lives outside
//! this crate; the library works on plain values and states exactly what it
//! computes.

pub mod cache;
pub mod catalog;
pub mod decode;
pub mod error;
pub mod export;
pub mod lang;
pub mod selector;
pub mod traverse;

pub use error::CrawlError;
pub use error::MissingField;
