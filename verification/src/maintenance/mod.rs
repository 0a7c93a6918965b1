//! Coordinated maintenance of the nodes that host replicas.

pub mod api;
pub mod clock;
pub mod controller;
pub mod controller_laws;
pub mod laws;
pub mod lifecycle;
pub mod lifecycle_laws;
pub mod observability;
pub mod placement;
pub mod release;
pub mod status;
pub mod status_laws;
