//! Realms of a tenant, and the requests that change them.
use vstd::prelude::*;

verus! {

/// A page of realms.
#[derive(Clone, Debug)]
pub struct Realms {
    pub realms: Vec<Realm>,
    pub total_size: usize,
}

/// A realm of a tenant.
#[derive(Clone, Debug)]
pub struct Realm {
    pub id: String,
    pub tenant_id: String,
    pub display_name: String,
    pub classification: Option<Classification>,
    pub create_time: String,
    pub update_time: String,
}

/// What a realm is for.
#[derive(Clone, Copy, Debug, PartialEq, Eq, Structural)]
pub enum Classification {
    SecureCustomer,
    SecureWorkforce,
}

/// A request to create a realm.
#[derive(Clone, Debug)]
pub struct CreateRealmRequest {
    pub classification: Classification,
    pub realm: CreateRealm,
}

/// The realm to create.
#[derive(Clone, Debug)]
pub struct CreateRealm {
    pub display_name: String,
}

/// A request to change a realm.
#[derive(Clone, Debug)]
pub struct PatchRealmRequest {
    pub realm: PatchRealm,
}

/// The realm to change and its new display name, if any.
#[derive(Clone, Debug)]
pub struct PatchRealm {
    pub id: String,
    pub display_name: Option<String>,
}

} // verus!
