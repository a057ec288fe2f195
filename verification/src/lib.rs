//! A time-bounded file cache for records of a source-control hosting API, and
//! the read-only views that a small gateway serves from the cached records.
//!
//! Everything here works on plain values: what was found on disk, what the
//! upstream answered, what the clock said. The caller performs the I/O.

pub mod github;
pub mod request;
pub mod storage;
pub mod refresh;
pub mod ranking;
pub mod timestamp;
pub mod views;
