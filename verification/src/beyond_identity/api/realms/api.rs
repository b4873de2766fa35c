//! The requests of the realms API.
use vstd::prelude::*;
use vstd::string::*;
use crate::beyond_identity::api::common::call::{
    filter_query, segments1, ApiCall, ApiCallView, HttpMethod, Scope, ScopeView,
};
use crate::beyond_identity::api::common::call::{call_url_of, realm_root, tenant_root, with_filter};
use crate::beyond_identity::api::common::url::{then_extended, URLBuilderView};
use crate::text::views;
use crate::weburl::url_parse;

verus! {

/// The request `POST <tenant>/realms`.
pub open spec fn create_realm_request() -> ApiCallView {
    ApiCallView {
        method: HttpMethod::Post,
        scope: ScopeView::Tenant,
        segments: seq!["realms"@],
        custom_method: None,
        query: None,
        paginated: false,
    }
}

/// The request `GET <tenant>/realms[?filter=<filter>]`.
pub open spec fn list_realms_request(filter: Option<Seq<char>>) -> ApiCallView {
    ApiCallView {
        method: HttpMethod::Get,
        scope: ScopeView::Tenant,
        segments: seq!["realms"@],
        custom_method: None,
        query: match filter {
            Some(f) => Some(("filter"@, f)),
            None => None,
        },
        paginated: true,
    }
}

/// The request `GET <tenant>/realms/<realm_id>`.
pub open spec fn get_realm_request(realm_id: Seq<char>) -> ApiCallView {
    ApiCallView {
        method: HttpMethod::Get,
        scope: ScopeView::OtherRealm(realm_id),
        segments: seq![],
        custom_method: None,
        query: None,
        paginated: false,
    }
}

/// The request `PATCH <realm>`.
pub open spec fn patch_realm_request() -> ApiCallView {
    ApiCallView {
        method: HttpMethod::Patch,
        scope: ScopeView::Realm,
        segments: seq![],
        custom_method: None,
        query: None,
        paginated: false,
    }
}

/// The request `DELETE <tenant>/realms/<realm_id>`.
pub open spec fn delete_realm_request(realm_id: Seq<char>) -> ApiCallView {
    ApiCallView {
        method: HttpMethod::Delete,
        scope: ScopeView::OtherRealm(realm_id),
        segments: seq![],
        custom_method: None,
        query: None,
        paginated: false,
    }
}

/// A realm is read or deleted at the realm it names, whichever realm the builder is
/// configured with: the URL is the tenant's (`<api base>/v1/tenants/<tenant>`) followed by
/// `realms` and the given id, with nothing after it; reading is a `GET`, deleting a
/// `DELETE`, and neither is a listing.
pub proof fn named_realm_requests_target_that_realm(b: URLBuilderView, realm_id: Seq<char>)
    ensures
        ({
            let tenant = then_extended(
                url_parse(b.api_base_url),
                seq!["v1"@, "tenants"@, b.tenant_id],
            );
            let realm = then_extended(tenant, seq!["realms"@, realm_id]);
            &&& call_url_of(b, delete_realm_request(realm_id)) == realm
            &&& call_url_of(b, get_realm_request(realm_id)) == realm
            &&& delete_realm_request(realm_id).method == HttpMethod::Delete
            &&& get_realm_request(realm_id).method == HttpMethod::Get
            &&& !delete_realm_request(realm_id).paginated
            &&& !get_realm_request(realm_id).paginated
        }),
{
}

/// The requests of the realms API.
pub struct RealmsApi;

impl RealmsApi {
    /// `POST <tenant>/realms`: creates a realm.
    pub fn create_realm() -> (r: ApiCall)
        ensures
            r@ == create_realm_request(),
    {
        ApiCall {
            method: HttpMethod::Post,
            scope: Scope::Tenant,
            segments: segments1("realms"),
            custom_method: None,
            query: None,
            paginated: false,
        }
    }

    /// `GET <tenant>/realms[?filter=<filter>]`: lists realms, page by page.
    pub fn list_realms(filter: Option<&str>) -> (r: ApiCall)
        ensures
            r@ == list_realms_request(match filter {
                    Some(f) => Some(f@),
                    None => None,
                }),
    {
        ApiCall {
            method: HttpMethod::Get,
            scope: Scope::Tenant,
            segments: segments1("realms"),
            custom_method: None,
            query: filter_query(filter),
            paginated: true,
        }
    }

    /// `GET <tenant>/realms/<realm_id>`: reads a realm.
    pub fn get_realm(realm_id: &str) -> (r: ApiCall)
        ensures
            r@ == get_realm_request(realm_id@),
    {
        let segments: Vec<String> = Vec::new();
        assert(views(segments@) =~= seq![]);
        ApiCall {
            method: HttpMethod::Get,
            scope: Scope::OtherRealm(String::from_str(realm_id)),
            segments: segments,
            custom_method: None,
            query: None,
            paginated: false,
        }
    }

    /// `PATCH <realm>`: changes the configured realm.
    pub fn patch_realm() -> (r: ApiCall)
        ensures
            r@ == patch_realm_request(),
    {
        let segments: Vec<String> = Vec::new();
        assert(views(segments@) =~= seq![]);
        ApiCall {
            method: HttpMethod::Patch,
            scope: Scope::Realm,
            segments: segments,
            custom_method: None,
            query: None,
            paginated: false,
        }
    }

    /// `DELETE <tenant>/realms/<realm_id>`: deletes a realm.
    pub fn delete_realm(realm_id: &str) -> (r: ApiCall)
        ensures
            r@ == delete_realm_request(realm_id@),
    {
        let segments: Vec<String> = Vec::new();
        assert(views(segments@) =~= seq![]);
        ApiCall {
            method: HttpMethod::Delete,
            scope: Scope::OtherRealm(String::from_str(realm_id)),
            segments: segments,
            custom_method: None,
            query: None,
            paginated: false,
        }
    }
}

/// The realm requests address the tenant's realms: creating posts to `<tenant>/realms` and
/// listing reads it page by page, with the filter as the `filter` parameter where one is
/// given; changing addresses the configured realm, `<tenant>/realms/<realm>`, with `PATCH`.
pub proof fn realm_requests_address_the_tenants_realms(b: URLBuilderView, filter: Option<Seq<char>>)
    ensures
        ({
            let realms = then_extended(tenant_root(b), seq!["realms"@]);
            &&& call_url_of(b, create_realm_request()) == realms
            &&& create_realm_request().method == HttpMethod::Post
            &&& !create_realm_request().paginated
            &&& call_url_of(b, list_realms_request(filter)) == with_filter(realms, filter)
            &&& list_realms_request(filter).method == HttpMethod::Get
            &&& list_realms_request(filter).paginated
            &&& call_url_of(b, patch_realm_request()) == realm_root(b)
            &&& patch_realm_request().method == HttpMethod::Patch
            &&& !patch_realm_request().paginated
        }),
{
}

} // verus!
