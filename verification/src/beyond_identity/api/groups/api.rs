//! The requests of the groups API.
use vstd::prelude::*;
use vstd::string::*;
use crate::beyond_identity::api::common::call::{call_url_of, realm_root, with_custom_method, with_query, with_filter};
use crate::beyond_identity::api::common::url::{then_extended, URLBuilderView};
use crate::beyond_identity::api::common::call::{
    case_converted, convert_case, filter_query, segments1, segments2, ApiCall, ApiCallView, HttpMethod, Scope, ScopeView,
};

verus! {

/// The request `POST <realm>/groups`.
pub open spec fn create_group_request() -> ApiCallView {
    ApiCallView {
        method: HttpMethod::Post,
        scope: ScopeView::Realm,
        segments: seq!["groups"@],
        custom_method: None,
        query: None,
        paginated: false,
    }
}

/// The request `GET <realm>/groups[?filter=<filter>]`.
pub open spec fn list_groups_request(filter: Option<Seq<char>>) -> ApiCallView {
    ApiCallView {
        method: HttpMethod::Get,
        scope: ScopeView::Realm,
        segments: seq!["groups"@],
        custom_method: None,
        query: match filter {
            Some(f) => Some(("filter"@, f)),
            None => None,
        },
        paginated: true,
    }
}

/// The request `GET <realm>/groups/<group_id>`.
pub open spec fn get_group_request(group_id: Seq<char>) -> ApiCallView {
    ApiCallView {
        method: HttpMethod::Get,
        scope: ScopeView::Realm,
        segments: seq!["groups"@, group_id],
        custom_method: None,
        query: None,
        paginated: false,
    }
}

/// The request `PATCH <realm>/groups/<group_id>`.
pub open spec fn patch_group_request(group_id: Seq<char>) -> ApiCallView {
    ApiCallView {
        method: HttpMethod::Patch,
        scope: ScopeView::Realm,
        segments: seq!["groups"@, group_id],
        custom_method: None,
        query: None,
        paginated: false,
    }
}

/// The request `DELETE <realm>/groups/<group_id>`.
pub open spec fn delete_group_request(group_id: Seq<char>) -> ApiCallView {
    ApiCallView {
        method: HttpMethod::Delete,
        scope: ScopeView::Realm,
        segments: seq!["groups"@, group_id],
        custom_method: None,
        query: None,
        paginated: false,
    }
}

/// The request `POST <realm>/groups/<group_id>:addMembers`.
pub open spec fn add_members_request(group_id: Seq<char>) -> ApiCallView {
    ApiCallView {
        method: HttpMethod::Post,
        scope: ScopeView::Realm,
        segments: seq!["groups"@, group_id],
        custom_method: Some(case_converted("add_members"@, false)),
        query: None,
        paginated: false,
    }
}

/// The request `POST <realm>/groups/<group_id>:deleteMembers`.
pub open spec fn delete_members_request(group_id: Seq<char>) -> ApiCallView {
    ApiCallView {
        method: HttpMethod::Post,
        scope: ScopeView::Realm,
        segments: seq!["groups"@, group_id],
        custom_method: Some(case_converted("delete_members"@, false)),
        query: None,
        paginated: false,
    }
}

/// The request `GET <realm>/groups/<group_id>:listMembers`.
pub open spec fn list_members_request(group_id: Seq<char>) -> ApiCallView {
    ApiCallView {
        method: HttpMethod::Get,
        scope: ScopeView::Realm,
        segments: seq!["groups"@, group_id],
        custom_method: Some(case_converted("list_members"@, false)),
        query: None,
        paginated: true,
    }
}

/// The request `GET <realm>/groups/<group_id>:listRoles?resource_server_id=<resource_server_id>`.
pub open spec fn list_roles_request(
    group_id: Seq<char>,
    resource_server_id: Seq<char>,
) -> ApiCallView {
    ApiCallView {
        method: HttpMethod::Get,
        scope: ScopeView::Realm,
        segments: seq!["groups"@, group_id],
        custom_method: Some(case_converted("list_roles"@, false)),
        query: Some(("resource_server_id"@, resource_server_id)),
        paginated: true,
    }
}

/// The requests of the groups API.
pub struct GroupsApi;

impl GroupsApi {
    /// `POST <realm>/groups`: creates a group.
    pub fn create_group() -> (r: ApiCall)
        ensures
            r@ == create_group_request(),
    {
        ApiCall {
            method: HttpMethod::Post,
            scope: Scope::Realm,
            segments: segments1("groups"),
            custom_method: None,
            query: None,
            paginated: false,
        }
    }

    /// `GET <realm>/groups[?filter=<filter>]`: lists groups, page by page.
    pub fn list_groups(filter: Option<&str>) -> (r: ApiCall)
        ensures
            r@ == list_groups_request(match filter {
                    Some(f) => Some(f@),
                    None => None,
                }),
    {
        ApiCall {
            method: HttpMethod::Get,
            scope: Scope::Realm,
            segments: segments1("groups"),
            custom_method: None,
            query: filter_query(filter),
            paginated: true,
        }
    }

    /// `GET <realm>/groups/<group_id>`: reads a group.
    pub fn get_group(group_id: &str) -> (r: ApiCall)
        ensures
            r@ == get_group_request(group_id@),
    {
        ApiCall {
            method: HttpMethod::Get,
            scope: Scope::Realm,
            segments: segments2("groups", group_id),
            custom_method: None,
            query: None,
            paginated: false,
        }
    }

    /// `PATCH <realm>/groups/<group_id>`: changes a group.
    pub fn patch_group(group_id: &str) -> (r: ApiCall)
        ensures
            r@ == patch_group_request(group_id@),
    {
        ApiCall {
            method: HttpMethod::Patch,
            scope: Scope::Realm,
            segments: segments2("groups", group_id),
            custom_method: None,
            query: None,
            paginated: false,
        }
    }

    /// `DELETE <realm>/groups/<group_id>`: deletes a group.
    pub fn delete_group(group_id: &str) -> (r: ApiCall)
        ensures
            r@ == delete_group_request(group_id@),
    {
        ApiCall {
            method: HttpMethod::Delete,
            scope: Scope::Realm,
            segments: segments2("groups", group_id),
            custom_method: None,
            query: None,
            paginated: false,
        }
    }

    /// `POST <realm>/groups/<group_id>:addMembers`: adds identities to a group.
    pub fn add_members(group_id: &str) -> (r: ApiCall)
        ensures
            r@ == add_members_request(group_id@),
    {
        ApiCall {
            method: HttpMethod::Post,
            scope: Scope::Realm,
            segments: segments2("groups", group_id),
            custom_method: Some(convert_case("add_members", false)),
            query: None,
            paginated: false,
        }
    }

    /// `POST <realm>/groups/<group_id>:deleteMembers`: removes identities from a group.
    pub fn delete_members(group_id: &str) -> (r: ApiCall)
        ensures
            r@ == delete_members_request(group_id@),
    {
        ApiCall {
            method: HttpMethod::Post,
            scope: Scope::Realm,
            segments: segments2("groups", group_id),
            custom_method: Some(convert_case("delete_members", false)),
            query: None,
            paginated: false,
        }
    }

    /// `GET <realm>/groups/<group_id>:listMembers`: lists a group's members, page by page.
    pub fn list_members(group_id: &str) -> (r: ApiCall)
        ensures
            r@ == list_members_request(group_id@),
    {
        ApiCall {
            method: HttpMethod::Get,
            scope: Scope::Realm,
            segments: segments2("groups", group_id),
            custom_method: Some(convert_case("list_members", false)),
            query: None,
            paginated: true,
        }
    }

    /// `GET <realm>/groups/<group_id>:listRoles?resource_server_id=<resource_server_id>`:
    /// lists a group's roles in a resource server, page by page.
    pub fn list_roles(group_id: &str, resource_server_id: &str) -> (r: ApiCall)
        ensures
            r@ == list_roles_request(group_id@, resource_server_id@),
    {
        ApiCall {
            method: HttpMethod::Get,
            scope: Scope::Realm,
            segments: segments2("groups", group_id),
            custom_method: Some(convert_case("list_roles", false)),
            query: Some((String::from_str("resource_server_id"), String::from_str(resource_server_id))),
            paginated: true,
        }
    }
}

/// The group requests address the configured realm's groups: creating posts to
/// `<realm>/groups` and listing reads it page by page, with the filter as the `filter`
/// parameter where one is given; each request about one group addresses
/// `<realm>/groups/<group>`: reading with `GET`, changing with `PATCH`, deleting with
/// `DELETE`, adding and removing members with the custom methods `addMembers` and
/// `deleteMembers` (`POST`), and listing its members and its roles for one resource server
/// with `listMembers` and `listRoles`, page by page.
pub proof fn group_requests_address_their_groups(
    b: URLBuilderView,
    group_id: Seq<char>,
    filter: Option<Seq<char>>,
    resource_server_id: Seq<char>,
)
    ensures
        ({
            let groups = then_extended(realm_root(b), seq!["groups"@]);
            let group = then_extended(realm_root(b), seq!["groups"@, group_id]);
            &&& call_url_of(b, create_group_request()) == groups
            &&& create_group_request().method == HttpMethod::Post
            &&& !create_group_request().paginated
            &&& call_url_of(b, list_groups_request(filter)) == with_filter(groups, filter)
            &&& list_groups_request(filter).method == HttpMethod::Get
            &&& list_groups_request(filter).paginated
            &&& call_url_of(b, get_group_request(group_id)) == group
            &&& get_group_request(group_id).method == HttpMethod::Get
            &&& !get_group_request(group_id).paginated
            &&& call_url_of(b, patch_group_request(group_id)) == group
            &&& patch_group_request(group_id).method == HttpMethod::Patch
            &&& !patch_group_request(group_id).paginated
            &&& call_url_of(b, delete_group_request(group_id)) == group
            &&& delete_group_request(group_id).method == HttpMethod::Delete
            &&& !delete_group_request(group_id).paginated
            &&& call_url_of(b, add_members_request(group_id)) == with_custom_method(group, case_converted("add_members"@, false))
            &&& add_members_request(group_id).method == HttpMethod::Post
            &&& !add_members_request(group_id).paginated
            &&& call_url_of(b, delete_members_request(group_id)) == with_custom_method(group, case_converted("delete_members"@, false))
            &&& delete_members_request(group_id).method == HttpMethod::Post
            &&& !delete_members_request(group_id).paginated
            &&& call_url_of(b, list_members_request(group_id)) == with_custom_method(group, case_converted("list_members"@, false))
            &&& list_members_request(group_id).method == HttpMethod::Get
            &&& list_members_request(group_id).paginated
            &&& call_url_of(b, list_roles_request(group_id, resource_server_id)) == with_query(with_custom_method(group, case_converted("list_roles"@, false)), "resource_server_id"@, resource_server_id)
            &&& list_roles_request(group_id, resource_server_id).method == HttpMethod::Get
            &&& list_roles_request(group_id, resource_server_id).paginated
        }),
{
}

} // verus!
