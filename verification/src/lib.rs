//! Finds files under a directory tree whose age, measured by the
//! last-accessed, last-modified or creation timestamp, strictly exceeds a
//! configured threshold.
//!
//! The crate is organised around a small data model of the filesystem
//! ([`fs_model`]): a directory listing is a vector of entries, each entry a
//! regular file (with or without readable metadata) or a subdirectory with
//! its own listing.  The scanner ([`scan`]) walks such a listing depth-first
//! and reports the full path of every stale file, in discovery order.  The
//! textual configuration (mode letter and time specification) is parsed by
//! [`mode`] and [`time_spec`] into a [`config::Config`].

pub mod config;
pub mod errors;
pub mod fs_model;
pub mod mode;
pub mod scan;
pub mod time_spec;
