//! Fast launcher for single-file Rust scripts: the cache-validity decisions,
//! the cache-entry format and its atomic store, and the scan of the
//! toolchain's build output.

pub mod digest;
pub mod entry;
pub mod json;
pub mod launch;
pub mod store;
pub mod toolchain;
