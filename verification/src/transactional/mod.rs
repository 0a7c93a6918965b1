//! A replica of transactional state: how it takes in operations and copies, answers
//! the replicator, and follows the lifecycle of its partition.

pub mod drain;
pub mod drain_laws;
pub mod host;
pub mod host_laws;
pub mod laws;
pub mod provider;
pub mod provider_laws;
pub mod replica;
