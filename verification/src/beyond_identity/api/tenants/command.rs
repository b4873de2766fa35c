//! The `tenants` commands and the request each of them sends.
use vstd::prelude::*;
use crate::beyond_identity::api::common::call::{call_url_of, tenant_root, HttpMethod};
use crate::beyond_identity::api::common::url::{URLBuilderView};
use crate::beyond_identity::api::common::call::ApiCall;
use crate::beyond_identity::api::tenants::api::{get_tenant_request, patch_tenant_request, TenantsApi};
use crate::beyond_identity::api::tenants::types::{PatchTenant, PatchTenantRequest};

verus! {

/// The `tenants` commands.
pub enum TenantCommands {
    /// Get the tenant.
    Get(Get),
    /// Update the tenant.
    Patch(Patch),
}

/// `tenants get`: no arguments.
pub struct Get;

/// `tenants patch`: the tenant's new display name.
pub struct Patch {
    pub display_name: String,
}

impl Patch {
    /// The body of the patch: the new display name.
    pub fn request(&self) -> (r: PatchTenantRequest)
        ensures
            r.tenant.display_name matches Some(n) && n@ == self.display_name@,
    {
        PatchTenantRequest { tenant: PatchTenant { display_name: Some(self.display_name.clone()) } }
    }
}

impl TenantCommands {
    /// Whether `r` is the outcome of `call` for this command.
    pub open spec fn call_result(&self, r: ApiCall) -> bool {
        match self {
            TenantCommands::Get(_) => r@ == get_tenant_request(),
            TenantCommands::Patch(_) => r@ == patch_tenant_request(),
        }
    }

    /// The request of the command.
    pub fn call(&self) -> (r: ApiCall)
        ensures
            self.call_result(r),
    {
        match self {
            TenantCommands::Get(_) => TenantsApi::get_tenant(),
            TenantCommands::Patch(_) => TenantsApi::patch_tenant(),
        }
    }
}

/// Each tenant command addresses the configured tenant, `<api base>/v1/tenants/<tenant>`:
/// `get` reads it and `patch` changes it.
pub proof fn tenant_commands_send_their_requests(
    cmd: &TenantCommands,
    b: URLBuilderView,
    r: ApiCall,
)
    requires
        cmd.call_result(r),
    ensures
        match cmd {
            TenantCommands::Get(_) => r@.method == HttpMethod::Get && call_url_of(b, r@) == tenant_root(b) && !r@.paginated,
            TenantCommands::Patch(_) => r@.method == HttpMethod::Patch && call_url_of(b, r@) == tenant_root(b) && !r@.paginated,
        },
{
}

} // verus!
