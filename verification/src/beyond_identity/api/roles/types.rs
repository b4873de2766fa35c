//! Roles of a resource server.
use vstd::prelude::*;

verus! {

/// A page of roles.
#[derive(Clone, Debug)]
pub struct Roles {
    pub roles: Vec<Role>,
    pub total_size: usize,
}

/// A role as the API wraps it.
#[derive(Clone, Debug)]
pub struct RoleEnvelope {
    pub role: Role,
}

/// A role of a resource server.
#[derive(Clone, Debug)]
pub struct Role {
    pub id: String,
    /// A unique identifier for a resource server.
    pub resource_server_id: String,
    pub realm_id: String,
    pub tenant_id: String,
    /// The display name of the role.
    pub display_name: String,
    /// A free-form text field to describe a role.
    pub description: String,
    pub create_time: String,
    pub update_time: String,
}

} // verus!
