//! Items shared by every command: the error type and the stored tenant/realm records.
pub mod database;
pub mod error;
