//! Helpers of the API commands.
pub mod filter;
