//! Snapshot enumeration of mounted volumes.
//!
//! The library discovers the volumes a host reports as mounted and builds,
//! for each one, a normalized record of its mount point, filesystem type,
//! and capacity counters.  The platform itself is reached through a small
//! query capability — list identifiers, fetch metadata, classify a drive,
//! fetch free space, read the last error — and every decision taken on the
//! answers of those queries lives here, as verified functions over plain
//! values.  A caller (or a mocked platform in a test) performs the queries
//! and hands their raw results in; the library validates the enumeration
//! protocol, decodes the platform's UTF-16 text, applies the
//! removable/optical fallback policy, and assembles the records.

pub mod describe;
pub mod snapshot;
pub mod error;
pub mod text;
pub mod volumes;
