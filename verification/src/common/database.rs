//! Records of the local configuration store.
pub mod models;
