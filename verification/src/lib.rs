//! A WebDAV gateway core: a path-to-identifier resolver with an in-memory
//! directory cache, a paginated remote listing protocol, and a concurrent
//! ranged downloader, for an identifier-addressed cloud drive.

pub mod cache;
pub mod clock;
pub mod config;
pub mod decimal;
pub mod download;
pub mod envelope;
pub mod error;
pub mod fs;
pub mod json;
pub mod list;
pub mod paths;
pub mod quark;
pub mod types;
