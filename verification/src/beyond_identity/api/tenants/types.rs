//! The tenant, and the request that changes it.
use vstd::prelude::*;

verus! {

/// A tenant.
#[derive(Clone, Debug)]
pub struct Tenant {
    pub id: String,
    pub display_name: String,
    pub create_time: String,
    pub update_time: String,
}

/// The fields of the tenant to change; a missing field is left as it is.
#[derive(Clone, Debug)]
pub struct PatchTenant {
    pub display_name: Option<String>,
}

/// A request to change the tenant.
#[derive(Clone, Debug)]
pub struct PatchTenantRequest {
    pub tenant: PatchTenant,
}

} // verus!
