//! The roles resource of the API.
pub mod types;
