//! Data-store abstraction for a task worker: a unit of task data (a blob, a
//! directory or a stream) held either as an in-memory byte buffer or behind a
//! filesystem path, with exclusive-ownership transfer, cached size accounting
//! and zero-copy materialization via symbolic links.

pub mod data;
pub mod error;
