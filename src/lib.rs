//! A key-value store kept on the filesystem: each record is one file, placed
//! under a directory path derived from the MD5 digest of its key.
//!
//! The library decides; the caller performs. Each operation is a [`Task`]
//! that hands out one filesystem request at a time and is told how it went.
pub mod shard;
pub mod store;
pub mod laws;
