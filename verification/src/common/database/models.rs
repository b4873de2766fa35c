//! The tenant, realm and token records that requests are built from.
use vstd::prelude::*;

verus! {

/// A provisioned Beyond Identity tenant.
#[derive(Clone, Debug)]
pub struct Tenant {
    pub id: String,
    pub display_name: String,
}

/// A realm of a tenant, with the base URLs and the management application used to
/// obtain access tokens for it.
#[derive(Clone, Debug)]
pub struct Realm {
    pub id: String,
    pub tenant_id: String,
    pub display_name: String,
    pub application_id: String,
    pub client_id: String,
    pub client_secret: String,
    pub api_base_url: String,
    pub auth_base_url: String,
}

/// A stored bearer token and the second (UNIX time) at which it expires.
#[derive(Clone, Debug)]
pub struct Token {
    pub access_token: String,
    pub expires_at: i64,
    pub tenant_id: String,
    pub realm_id: String,
    pub application_id: String,
}

} // verus!
