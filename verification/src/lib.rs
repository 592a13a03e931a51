//! Locates, creates, and safely reads and writes a single configuration or
//! cache file shared by one application across several candidate directories
//! and across concurrent threads and processes.
//!
//! The library contains the logic worth getting right: the ordered candidate
//! directory resolution, the search strategy for opening or creating the
//! file, the error discipline around advisory file locks, and a model of the
//! store that states what the locking discipline guarantees. The actual
//! filesystem calls, environment lookups and JSON encoding are performed by
//! an unverified shell that drives these functions and hands their decisions
//! to the operating system.

pub mod create;
pub mod error;
pub mod file_handler;
pub mod locking;
pub mod paths;
pub mod probe;
pub mod resolver;
pub mod search;
pub mod store;
