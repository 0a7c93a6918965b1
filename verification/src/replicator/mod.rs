//! Secondary-side replication.

pub mod laws;
pub mod payload;
pub mod receiver;
pub mod secondary;
pub mod secondary_laws;
pub mod stream_laws;
