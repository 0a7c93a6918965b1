//! Kuberic: replication, node maintenance and commit-barrier logic.
//!
//! Every decision of the system is a verified function over plain values; the
//! surrounding application performs the I/O those decisions ask for.

pub mod barrier;
pub mod maintenance;
pub mod replicator;
pub mod text;
pub mod text_laws;
pub mod transactional;
pub mod types;
