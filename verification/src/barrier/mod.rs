//! A barrier in front of SQLite's write-ahead log: what a transaction appends to the
//! log is held back until someone has accepted the transaction.

pub mod laws;
pub mod vfs;
pub mod vfs_laws;
pub mod wal;
pub mod wal_laws;
