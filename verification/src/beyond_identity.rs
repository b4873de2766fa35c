//! Beyond Identity: tenant configuration, the REST API, and the helper commands built on it.
pub mod api;
pub mod api_token;
pub mod commands;
pub mod groups;
pub mod helper;
pub mod identities;
pub mod realm_urls;
pub mod resource_servers;
pub mod tenant;
