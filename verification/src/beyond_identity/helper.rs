//! The helper commands: administration, enrollment and clean-up built on the API.
pub mod admin;
pub mod command;
pub mod enrollment;
pub mod roles;
pub mod scim;
pub mod sso_configs;
