//! The Beyond Identity REST API: URLs, requests and the resources they carry.
pub mod authenticator_configs;
pub mod common;
pub mod credential_binding_jobs;
pub mod credentials;
pub mod groups;
pub mod identities;
pub mod realms;
pub mod roles;
pub mod tenants;
pub mod utils;
