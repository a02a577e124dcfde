//! Lifecycle rules of a storage-backed diagnostics process: how the engine is
//! configured and opened, what the heap-statistics endpoint answers, and how
//! termination signals resolve into a single shutdown.

pub mod api;
pub mod rocksdb;
pub mod shutdown;
pub mod supervisor;
