//! The requests of the tenants API.
use vstd::prelude::*;
use vstd::string::*;
use crate::beyond_identity::api::common::call::{call_url_of, tenant_root};
use crate::beyond_identity::api::common::url::URLBuilderView;
use crate::beyond_identity::api::common::call::{
    ApiCall, ApiCallView, HttpMethod, Scope, ScopeView,
};
use crate::text::views;

verus! {

/// The request `GET <tenant>`.
pub open spec fn get_tenant_request() -> ApiCallView {
    ApiCallView {
        method: HttpMethod::Get,
        scope: ScopeView::Tenant,
        segments: seq![],
        custom_method: None,
        query: None,
        paginated: false,
    }
}

/// The request `PATCH <tenant>`.
pub open spec fn patch_tenant_request() -> ApiCallView {
    ApiCallView {
        method: HttpMethod::Patch,
        scope: ScopeView::Tenant,
        segments: seq![],
        custom_method: None,
        query: None,
        paginated: false,
    }
}

/// The requests of the tenants API.
pub struct TenantsApi;

impl TenantsApi {
    /// `GET <tenant>`: reads the tenant.
    pub fn get_tenant() -> (r: ApiCall)
        ensures
            r@ == get_tenant_request(),
    {
        let segments: Vec<String> = Vec::new();
        assert(views(segments@) =~= seq![]);
        ApiCall {
            method: HttpMethod::Get,
            scope: Scope::Tenant,
            segments: segments,
            custom_method: None,
            query: None,
            paginated: false,
        }
    }

    /// `PATCH <tenant>`: changes the tenant.
    pub fn patch_tenant() -> (r: ApiCall)
        ensures
            r@ == patch_tenant_request(),
    {
        let segments: Vec<String> = Vec::new();
        assert(views(segments@) =~= seq![]);
        ApiCall {
            method: HttpMethod::Patch,
            scope: Scope::Tenant,
            segments: segments,
            custom_method: None,
            query: None,
            paginated: false,
        }
    }
}

/// The tenant requests address the configured tenant itself, `<api base>/v1/tenants/<tenant>`:
/// reading with `GET`, changing with `PATCH`.
pub proof fn tenant_requests_address_the_tenant(b: URLBuilderView)
    ensures
        ({
            &&& call_url_of(b, get_tenant_request()) == tenant_root(b)
            &&& get_tenant_request().method == HttpMethod::Get
            &&& !get_tenant_request().paginated
            &&& call_url_of(b, patch_tenant_request()) == tenant_root(b)
            &&& patch_tenant_request().method == HttpMethod::Patch
            &&& !patch_tenant_request().paginated
        }),
{
}

} // verus!
