//! The credentials resource of the API.
pub mod api;
pub mod command;
pub mod types;
