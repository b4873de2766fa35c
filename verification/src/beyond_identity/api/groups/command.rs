//! The `groups` commands and the request each of them sends.
use vstd::prelude::*;
use crate::beyond_identity::api::common::call::{call_url_of, realm_root, with_custom_method, with_query, with_filter, case_converted, HttpMethod};
use crate::beyond_identity::api::common::url::{URLBuilderView, then_extended};
use crate::beyond_identity::api::common::call::ApiCall;
use crate::beyond_identity::api::common::filter::{checked_filter, Filter};
use crate::beyond_identity::api::groups::api::{
    add_members_request, create_group_request, delete_group_request, delete_members_request,
    get_group_request, list_groups_request, list_members_request, list_roles_request,
    patch_group_request, GroupsApi,
};
use crate::beyond_identity::api::groups::types::{
    AddMembersRequest, CreateGroupRequest, DeleteMembersRequest, PatchGroupRequest,
};
use crate::common::error::{BiError, BiErrorView};
use crate::copies::copy_opt_string;
use crate::weburl::opt_view;

verus! {

/// The `groups` commands.
pub enum GroupCommands {
    /// Create a new group.
    Create(CreateGroupRequest),
    /// List groups.
    List(List),
    /// Get a group.
    Get(Get),
    /// Update a group.
    Patch(PatchGroupRequest),
    /// Delete a group.
    Delete(Delete),
    /// Add identities to a group.
    AddMembers(AddMembers),
    /// Remove identities from a group.
    DeleteMembers(DeleteMembers),
    /// List a group's members.
    ListMembers(ListMembers),
    /// List a group's roles in a resource server.
    ListRoles(ListRoles),
}

/// `groups list`: an optional SCIM filter and an optional number of groups.
pub struct List {
    pub filter: Option<String>,
    pub limit: Option<usize>,
}

/// `groups get`: the group's ID.
pub struct Get {
    pub id: String,
}

/// `groups delete`: the group's ID.
pub struct Delete {
    pub id: String,
}

/// `groups add-members`: the group's ID and the identities to add.
pub struct AddMembers {
    pub id: String,
    pub request: AddMembersRequest,
}

/// `groups delete-members`: the group's ID and the identities to remove.
pub struct DeleteMembers {
    pub id: String,
    pub request: DeleteMembersRequest,
}

/// `groups list-members`: the group's ID and an optional number of members.
pub struct ListMembers {
    pub id: String,
    pub limit: Option<usize>,
}

/// `groups list-roles`: the group's ID, the resource server and an optional number of
/// roles.
pub struct ListRoles {
    pub id: String,
    pub resource_server_id: String,
    pub limit: Option<usize>,
}

impl List {
    /// The request: the listing of groups with the filter, checked as SCIM.
    pub fn call(&self) -> (r: Result<ApiCall, BiError>)
        ensures
            match checked_filter(opt_view(self.filter)) {
                Ok(f) => r matches Ok(c) && c@ == list_groups_request(f),
                Err(m) => r matches Err(e) && e@ == BiErrorView::InvalidFilter(m),
            },
    {
        match Filter::new(copy_opt_string(&self.filter)) {
            Ok(Some(f)) => Ok(GroupsApi::list_groups(Some(f.0.as_str()))),
            Ok(None) => Ok(GroupsApi::list_groups(None)),
            Err(e) => Err(e),
        }
    }
}

impl Get {
    /// The request: the group.
    pub fn call(&self) -> (r: ApiCall)
        ensures
            r@ == get_group_request(self.id@),
    {
        GroupsApi::get_group(self.id.as_str())
    }
}

impl Delete {
    /// The request: the deletion of the group.
    pub fn call(&self) -> (r: ApiCall)
        ensures
            r@ == delete_group_request(self.id@),
    {
        GroupsApi::delete_group(self.id.as_str())
    }
}

impl AddMembers {
    /// The request: the addition of the members to the group.
    pub fn call(&self) -> (r: ApiCall)
        ensures
            r@ == add_members_request(self.id@),
    {
        GroupsApi::add_members(self.id.as_str())
    }
}

impl DeleteMembers {
    /// The request: the removal of the members from the group.
    pub fn call(&self) -> (r: ApiCall)
        ensures
            r@ == delete_members_request(self.id@),
    {
        GroupsApi::delete_members(self.id.as_str())
    }
}

impl ListMembers {
    /// The request: the listing of the group's members.
    pub fn call(&self) -> (r: ApiCall)
        ensures
            r@ == list_members_request(self.id@),
    {
        GroupsApi::list_members(self.id.as_str())
    }
}

impl ListRoles {
    /// The request: the listing of the group's roles in the resource server.
    pub fn call(&self) -> (r: ApiCall)
        ensures
            r@ == list_roles_request(self.id@, self.resource_server_id@),
    {
        GroupsApi::list_roles(self.id.as_str(), self.resource_server_id.as_str())
    }
}

impl GroupCommands {
    /// Whether `r` is the outcome of `call` for this command.
    pub open spec fn call_result(&self, r: Result<ApiCall, BiError>) -> bool {
        match self {
            GroupCommands::Create(_) => r matches Ok(c) && c@ == create_group_request(),
            GroupCommands::List(l) => match checked_filter(opt_view(l.filter)) {
                Ok(f) => r matches Ok(c) && c@ == list_groups_request(f),
                Err(m) => r matches Err(e) && e@ == BiErrorView::InvalidFilter(m),
            },
            GroupCommands::Get(g) => r matches Ok(c) && c@ == get_group_request(g.id@),
            GroupCommands::Patch(p) => r matches Ok(c) && c@ == patch_group_request(p.group.id@),
            GroupCommands::Delete(d) => r matches Ok(c) && c@ == delete_group_request(d.id@),
            GroupCommands::AddMembers(a) => r matches Ok(c) && c@ == add_members_request(a.id@),
            GroupCommands::DeleteMembers(d) => r matches Ok(c) && c@ == delete_members_request(
                d.id@,
            ),
            GroupCommands::ListMembers(l) => r matches Ok(c) && c@ == list_members_request(l.id@),
            GroupCommands::ListRoles(l) => r matches Ok(c) && c@ == list_roles_request(
                l.id@,
                l.resource_server_id@,
            ),
        }
    }

    /// The request of the command; an error where a filter is not SCIM.
    pub fn call(&self) -> (r: Result<ApiCall, BiError>)
        ensures
            self.call_result(r),
    {
        match self {
            GroupCommands::Create(_) => Ok(GroupsApi::create_group()),
            GroupCommands::List(l) => l.call(),
            GroupCommands::Get(g) => Ok(g.call()),
            GroupCommands::Patch(p) => Ok(GroupsApi::patch_group(p.group.id.as_str())),
            GroupCommands::Delete(d) => Ok(d.call()),
            GroupCommands::AddMembers(a) => Ok(a.call()),
            GroupCommands::DeleteMembers(d) => Ok(d.call()),
            GroupCommands::ListMembers(l) => Ok(l.call()),
            GroupCommands::ListRoles(l) => Ok(l.call()),
        }
    }
}

/// Each group command sends the request of its kind to the configured realm's groups:
/// `create` posts to `<realm>/groups`; `list` reads it page by page with its filter, where
/// that filter is SCIM, and fails with the parser's message otherwise; the others address
/// the group whose ID was given, at `<realm>/groups/<group>`: `get` reads it, `patch`
/// changes it, `delete` deletes it, `add-members` and `delete-members` post `addMembers`
/// and `deleteMembers`, `list-members` and `list-roles` read `listMembers` and, for the
/// resource server given, `listRoles`.
pub proof fn group_commands_send_their_requests(
    cmd: &GroupCommands,
    b: URLBuilderView,
    r: Result<ApiCall, BiError>,
)
    requires
        cmd.call_result(r),
    ensures
        match cmd {
            GroupCommands::Create(_) => r matches Ok(c) && c@.method == HttpMethod::Post && call_url_of(b, c@) == then_extended(realm_root(b), seq!["groups"@]) && !c@.paginated,
            GroupCommands::List(l) => match checked_filter(opt_view(l.filter)) {
                Ok(f) => r matches Ok(c) && c@.method == HttpMethod::Get && call_url_of(b, c@) == with_filter(then_extended(realm_root(b), seq!["groups"@]), f) && c@.paginated,
                Err(m) => r matches Err(e) && e@ == BiErrorView::InvalidFilter(m),
            },
            GroupCommands::Get(g) => r matches Ok(c) && c@.method == HttpMethod::Get && call_url_of(b, c@) == then_extended(realm_root(b), seq!["groups"@, g.id@]) && !c@.paginated,
            GroupCommands::Patch(p) => r matches Ok(c) && c@.method == HttpMethod::Patch && call_url_of(b, c@) == then_extended(realm_root(b), seq!["groups"@, p.group.id@]) && !c@.paginated,
            GroupCommands::Delete(d) => r matches Ok(c) && c@.method == HttpMethod::Delete && call_url_of(b, c@) == then_extended(realm_root(b), seq!["groups"@, d.id@]) && !c@.paginated,
            GroupCommands::AddMembers(a) => r matches Ok(c) && c@.method == HttpMethod::Post && call_url_of(b, c@) == with_custom_method(then_extended(realm_root(b), seq!["groups"@, a.id@]), case_converted("add_members"@, false)) && !c@.paginated,
            GroupCommands::DeleteMembers(d) => r matches Ok(c) && c@.method == HttpMethod::Post && call_url_of(b, c@) == with_custom_method(then_extended(realm_root(b), seq!["groups"@, d.id@]), case_converted("delete_members"@, false)) && !c@.paginated,
            GroupCommands::ListMembers(l) => r matches Ok(c) && c@.method == HttpMethod::Get && call_url_of(b, c@) == with_custom_method(then_extended(realm_root(b), seq!["groups"@, l.id@]), case_converted("list_members"@, false)) && c@.paginated,
            GroupCommands::ListRoles(l) => r matches Ok(c) && c@.method == HttpMethod::Get && call_url_of(b, c@) == with_query(with_custom_method(then_extended(realm_root(b), seq!["groups"@, l.id@]), case_converted("list_roles"@, false)), "resource_server_id"@, l.resource_server_id@) && c@.paginated,
        },
{
}

} // verus!
