//! A memory bridge between a managed host and native callers: flat research
//! and post records, per-context string allocations, and boundary operations
//! that validate their arguments and write into caller-owned buffers.

pub mod layout;
pub mod text;
pub mod bridge;
pub mod content;
pub mod boundary;
