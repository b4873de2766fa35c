//! The requests of the identities API.
use vstd::prelude::*;
use vstd::string::*;
use crate::beyond_identity::api::common::call::{call_url_of, realm_root, with_custom_method, with_query, with_filter};
use crate::beyond_identity::api::common::url::{then_extended, URLBuilderView};
use crate::beyond_identity::api::common::call::{
    case_converted, convert_case, filter_query, segments1, segments2, ApiCall, ApiCallView, HttpMethod, Scope, ScopeView,
};

verus! {

/// The request `POST <realm>/identities`.
pub open spec fn create_identity_request() -> ApiCallView {
    ApiCallView {
        method: HttpMethod::Post,
        scope: ScopeView::Realm,
        segments: seq!["identities"@],
        custom_method: None,
        query: None,
        paginated: false,
    }
}

/// The request `DELETE <realm>/identities/<identity_id>`.
pub open spec fn delete_identity_request(identity_id: Seq<char>) -> ApiCallView {
    ApiCallView {
        method: HttpMethod::Delete,
        scope: ScopeView::Realm,
        segments: seq!["identities"@, identity_id],
        custom_method: None,
        query: None,
        paginated: false,
    }
}

/// The request `GET <realm>/identities/<identity_id>`.
pub open spec fn get_identity_request(identity_id: Seq<char>) -> ApiCallView {
    ApiCallView {
        method: HttpMethod::Get,
        scope: ScopeView::Realm,
        segments: seq!["identities"@, identity_id],
        custom_method: None,
        query: None,
        paginated: false,
    }
}

/// The request `GET <realm>/identities[?filter=<filter>]`.
pub open spec fn list_identities_request(filter: Option<Seq<char>>) -> ApiCallView {
    ApiCallView {
        method: HttpMethod::Get,
        scope: ScopeView::Realm,
        segments: seq!["identities"@],
        custom_method: None,
        query: match filter {
            Some(f) => Some(("filter"@, f)),
            None => None,
        },
        paginated: true,
    }
}

/// The request `GET <realm>/identities/<identity_id>:listGroups`.
pub open spec fn list_groups_request(identity_id: Seq<char>) -> ApiCallView {
    ApiCallView {
        method: HttpMethod::Get,
        scope: ScopeView::Realm,
        segments: seq!["identities"@, identity_id],
        custom_method: Some(case_converted("list_groups"@, false)),
        query: None,
        paginated: true,
    }
}

/// The request `GET <realm>/identities/<identity_id>:listRoles?resource_server_id=<resource_server_id>`.
pub open spec fn list_roles_request(
    identity_id: Seq<char>,
    resource_server_id: Seq<char>,
) -> ApiCallView {
    ApiCallView {
        method: HttpMethod::Get,
        scope: ScopeView::Realm,
        segments: seq!["identities"@, identity_id],
        custom_method: Some(case_converted("list_roles"@, false)),
        query: Some(("resource_server_id"@, resource_server_id)),
        paginated: true,
    }
}

/// The request `PATCH <realm>/identities/<identity_id>`.
pub open spec fn patch_identity_request(identity_id: Seq<char>) -> ApiCallView {
    ApiCallView {
        method: HttpMethod::Patch,
        scope: ScopeView::Realm,
        segments: seq!["identities"@, identity_id],
        custom_method: None,
        query: None,
        paginated: false,
    }
}

/// The requests of the identities API.
pub struct IdentitiesApi;

impl IdentitiesApi {
    /// `POST <realm>/identities`: creates an identity.
    pub fn create_identity() -> (r: ApiCall)
        ensures
            r@ == create_identity_request(),
    {
        ApiCall {
            method: HttpMethod::Post,
            scope: Scope::Realm,
            segments: segments1("identities"),
            custom_method: None,
            query: None,
            paginated: false,
        }
    }

    /// `DELETE <realm>/identities/<identity_id>`: deletes an identity.
    pub fn delete_identity(identity_id: &str) -> (r: ApiCall)
        ensures
            r@ == delete_identity_request(identity_id@),
    {
        ApiCall {
            method: HttpMethod::Delete,
            scope: Scope::Realm,
            segments: segments2("identities", identity_id),
            custom_method: None,
            query: None,
            paginated: false,
        }
    }

    /// `GET <realm>/identities/<identity_id>`: reads an identity.
    pub fn get_identity(identity_id: &str) -> (r: ApiCall)
        ensures
            r@ == get_identity_request(identity_id@),
    {
        ApiCall {
            method: HttpMethod::Get,
            scope: Scope::Realm,
            segments: segments2("identities", identity_id),
            custom_method: None,
            query: None,
            paginated: false,
        }
    }

    /// `GET <realm>/identities[?filter=<filter>]`: lists identities, page by page.
    pub fn list_identities(filter: Option<&str>) -> (r: ApiCall)
        ensures
            r@ == list_identities_request(match filter {
                    Some(f) => Some(f@),
                    None => None,
                }),
    {
        ApiCall {
            method: HttpMethod::Get,
            scope: Scope::Realm,
            segments: segments1("identities"),
            custom_method: None,
            query: filter_query(filter),
            paginated: true,
        }
    }

    /// `GET <realm>/identities/<identity_id>:listGroups`: lists an identity's groups, page by page.
    pub fn list_groups(identity_id: &str) -> (r: ApiCall)
        ensures
            r@ == list_groups_request(identity_id@),
    {
        ApiCall {
            method: HttpMethod::Get,
            scope: Scope::Realm,
            segments: segments2("identities", identity_id),
            custom_method: Some(convert_case("list_groups", false)),
            query: None,
            paginated: true,
        }
    }

    /// `GET <realm>/identities/<identity_id>:listRoles?resource_server_id=<resource_server_id>`:
    /// lists an identity's roles in a resource server, page by page.
    pub fn list_roles(identity_id: &str, resource_server_id: &str) -> (r: ApiCall)
        ensures
            r@ == list_roles_request(identity_id@, resource_server_id@),
    {
        ApiCall {
            method: HttpMethod::Get,
            scope: Scope::Realm,
            segments: segments2("identities", identity_id),
            custom_method: Some(convert_case("list_roles", false)),
            query: Some((String::from_str("resource_server_id"), String::from_str(resource_server_id))),
            paginated: true,
        }
    }

    /// `PATCH <realm>/identities/<identity_id>`: changes an identity.
    pub fn patch_identity(identity_id: &str) -> (r: ApiCall)
        ensures
            r@ == patch_identity_request(identity_id@),
    {
        ApiCall {
            method: HttpMethod::Patch,
            scope: Scope::Realm,
            segments: segments2("identities", identity_id),
            custom_method: None,
            query: None,
            paginated: false,
        }
    }
}

/// The identity requests address the configured realm's identities: creating posts to
/// `<realm>/identities` and listing reads it page by page, with the filter as the `filter`
/// parameter where one is given; each request about one identity addresses
/// `<realm>/identities/<identity>`: reading with `GET`, changing with `PATCH`, deleting with
/// `DELETE`, and listing its groups and its roles for one resource server with the custom
/// methods `listGroups` and `listRoles`, page by page.
pub proof fn identity_requests_address_their_identities(
    b: URLBuilderView,
    identity_id: Seq<char>,
    filter: Option<Seq<char>>,
    resource_server_id: Seq<char>,
)
    ensures
        ({
            let identities = then_extended(realm_root(b), seq!["identities"@]);
            let identity = then_extended(realm_root(b), seq!["identities"@, identity_id]);
            &&& call_url_of(b, create_identity_request()) == identities
            &&& create_identity_request().method == HttpMethod::Post
            &&& !create_identity_request().paginated
            &&& call_url_of(b, list_identities_request(filter)) == with_filter(identities, filter)
            &&& list_identities_request(filter).method == HttpMethod::Get
            &&& list_identities_request(filter).paginated
            &&& call_url_of(b, get_identity_request(identity_id)) == identity
            &&& get_identity_request(identity_id).method == HttpMethod::Get
            &&& !get_identity_request(identity_id).paginated
            &&& call_url_of(b, patch_identity_request(identity_id)) == identity
            &&& patch_identity_request(identity_id).method == HttpMethod::Patch
            &&& !patch_identity_request(identity_id).paginated
            &&& call_url_of(b, delete_identity_request(identity_id)) == identity
            &&& delete_identity_request(identity_id).method == HttpMethod::Delete
            &&& !delete_identity_request(identity_id).paginated
            &&& call_url_of(b, list_groups_request(identity_id)) == with_custom_method(identity, case_converted("list_groups"@, false))
            &&& list_groups_request(identity_id).method == HttpMethod::Get
            &&& list_groups_request(identity_id).paginated
            &&& call_url_of(b, list_roles_request(identity_id, resource_server_id)) == with_query(with_custom_method(identity, case_converted("list_roles"@, false)), "resource_server_id"@, resource_server_id)
            &&& list_roles_request(identity_id, resource_server_id).method == HttpMethod::Get
            &&& list_roles_request(identity_id, resource_server_id).paginated
        }),
{
}

} // verus!
