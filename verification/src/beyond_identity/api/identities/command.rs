//! The `identities` commands and the request each of them sends.
use vstd::prelude::*;
use crate::beyond_identity::api::common::call::{call_url_of, realm_root, with_custom_method, with_query, with_filter, case_converted, HttpMethod};
use crate::beyond_identity::api::common::url::{URLBuilderView, then_extended};
use crate::beyond_identity::api::common::call::ApiCall;
use crate::beyond_identity::api::identities::api::{
    create_identity_request, delete_identity_request, get_identity_request,
    list_groups_request, list_identities_request, list_roles_request, patch_identity_request,
    IdentitiesApi,
};
use crate::beyond_identity::api::identities::types::{
    IdentityDetails, IdentityFilterField, PatchIdentityDetails, Traits,
};
use crate::beyond_identity::api::utils::filter::{filter_result, Filter};
use crate::common::error::{BiError, BiErrorView};
use crate::copies::copy_opt_string;
use crate::weburl::opt_view;

verus! {

/// The `identities` commands.
pub enum IdentityCommands {
    /// Create a new identity.
    Create(Create),
    /// List identities.
    List(List),
    /// Get an identity.
    Get(Get),
    /// Update an identity.
    Patch(Patch),
    /// Delete an identity.
    Delete(Delete),
    /// List an identity's groups.
    ListGroups(ListGroups),
    /// List an identity's roles.
    ListRoles(ListRoles),
}

/// The identity to create: its display name and traits.
#[derive(Clone, Debug)]
pub struct IdentityRequest {
    pub display_name: String,
    pub traits: Traits,
}

/// A request to create an identity.
#[derive(Clone, Debug)]
pub struct CreateIdentityRequest {
    pub identity: IdentityRequest,
}

/// A request to change an identity.
#[derive(Clone, Debug)]
pub struct PatchIdentityRequest {
    pub identity: PatchIdentityDetails,
}

/// `identities create`: the identity's details.
pub struct Create {
    pub identity_details: IdentityDetails,
}

/// `identities list`: an optional filter `field eq value` and an optional number of
/// identities.
pub struct List {
    pub filter: Option<String>,
    pub limit: Option<usize>,
}

/// `identities get`: the identity's ID.
pub struct Get {
    pub id: String,
}

/// `identities patch`: the identity's ID and the fields to change.
pub struct Patch {
    pub id: String,
    pub identity_details: PatchIdentityDetails,
}

/// `identities delete`: the identity's ID.
pub struct Delete {
    pub id: String,
}

/// `identities list-groups`: the identity's ID.
pub struct ListGroups {
    pub id: String,
}

/// `identities list-roles`: the identity's ID and the resource server.
pub struct ListRoles {
    pub id: String,
    pub resource_server_id: String,
}

impl Create {
    /// The body of the creation: the display name and the traits of the details.
    pub fn request(&self) -> (r: CreateIdentityRequest)
        ensures
            r.identity.display_name@ == self.identity_details.display_name@,
            r.identity.traits == self.identity_details.traits,
    {
        CreateIdentityRequest {
            identity: IdentityRequest {
                display_name: self.identity_details.display_name.clone(),
                traits: self.identity_details.traits.duplicate(),
            },
        }
    }
}

impl List {
    /// The request: the listing of identities with the filter, read as `field eq value`.
    pub fn call(&self) -> (r: Result<ApiCall, BiError>)
        ensures
            match filter_result::<IdentityFilterField>(opt_view(self.filter)) {
                Ok(f) => r matches Ok(c) && c@ == list_identities_request(f),
                Err(m) => r matches Err(e) && e@ == BiErrorView::InvalidFilter(m),
            },
    {
        let raw = copy_opt_string(&self.filter);
        assert(opt_view(raw) == match raw {
            Some(s) => Some(s@),
            None => None::<Seq<char>>,
        });
        match Filter::new::<IdentityFilterField>(raw) {
            Ok(Some(f)) => Ok(IdentitiesApi::list_identities(Some(f.filter.as_str()))),
            Ok(None) => Ok(IdentitiesApi::list_identities(None)),
            Err(BiError::InvalidFilter(m)) => Err(BiError::InvalidFilter(m)),
            Err(e) => Err(e),
        }
    }
}

impl IdentityCommands {
    /// Whether `r` is the outcome of `call` for this command.
    pub open spec fn call_result(&self, r: Result<ApiCall, BiError>) -> bool {
        match self {
            IdentityCommands::Create(_) => r matches Ok(c) && c@ == create_identity_request(),
            IdentityCommands::List(l) => match filter_result::<IdentityFilterField>(
                opt_view(l.filter),
            ) {
                Ok(f) => r matches Ok(c) && c@ == list_identities_request(f),
                Err(m) => r matches Err(e) && e@ == BiErrorView::InvalidFilter(m),
            },
            IdentityCommands::Get(g) => r matches Ok(c) && c@ == get_identity_request(g.id@),
            IdentityCommands::Patch(p) => r matches Ok(c) && c@ == patch_identity_request(p.id@),
            IdentityCommands::Delete(d) => r matches Ok(c) && c@ == delete_identity_request(d.id@),
            IdentityCommands::ListGroups(l) => r matches Ok(c) && c@ == list_groups_request(l.id@),
            IdentityCommands::ListRoles(l) => r matches Ok(c) && c@ == list_roles_request(
                l.id@,
                l.resource_server_id@,
            ),
        }
    }

    /// The request of the command; an error where a filter cannot be read.
    pub fn call(&self) -> (r: Result<ApiCall, BiError>)
        ensures
            self.call_result(r),
    {
        match self {
            IdentityCommands::Create(_) => Ok(IdentitiesApi::create_identity()),
            IdentityCommands::List(l) => l.call(),
            IdentityCommands::Get(g) => Ok(IdentitiesApi::get_identity(g.id.as_str())),
            IdentityCommands::Patch(p) => Ok(IdentitiesApi::patch_identity(p.id.as_str())),
            IdentityCommands::Delete(d) => Ok(IdentitiesApi::delete_identity(d.id.as_str())),
            IdentityCommands::ListGroups(l) => Ok(IdentitiesApi::list_groups(l.id.as_str())),
            IdentityCommands::ListRoles(l) => Ok(
                IdentitiesApi::list_roles(l.id.as_str(), l.resource_server_id.as_str()),
            ),
        }
    }
}

/// Each identity command sends the request of its kind to the configured realm's
/// identities: `create` posts to `<realm>/identities`; `list` reads it page by page with
/// the filter read from its `field eq value` text, and fails with that reading's message
/// otherwise; the others address the identity whose ID was given, at
/// `<realm>/identities/<identity>`: `get` reads it, `patch` changes it, `delete` deletes
/// it, `list-groups` and `list-roles` read `listGroups` and, for the resource server given,
/// `listRoles`.
pub proof fn identity_commands_send_their_requests(
    cmd: &IdentityCommands,
    b: URLBuilderView,
    r: Result<ApiCall, BiError>,
)
    requires
        cmd.call_result(r),
    ensures
        match cmd {
            IdentityCommands::Create(_) => r matches Ok(c) && c@.method == HttpMethod::Post && call_url_of(b, c@) == then_extended(realm_root(b), seq!["identities"@]) && !c@.paginated,
            IdentityCommands::List(l) => match filter_result::<IdentityFilterField>(opt_view(l.filter)) {
                Ok(f) => r matches Ok(c) && c@.method == HttpMethod::Get && call_url_of(b, c@) == with_filter(then_extended(realm_root(b), seq!["identities"@]), f) && c@.paginated,
                Err(m) => r matches Err(e) && e@ == BiErrorView::InvalidFilter(m),
            },
            IdentityCommands::Get(g) => r matches Ok(c) && c@.method == HttpMethod::Get && call_url_of(b, c@) == then_extended(realm_root(b), seq!["identities"@, g.id@]) && !c@.paginated,
            IdentityCommands::Patch(p) => r matches Ok(c) && c@.method == HttpMethod::Patch && call_url_of(b, c@) == then_extended(realm_root(b), seq!["identities"@, p.id@]) && !c@.paginated,
            IdentityCommands::Delete(d) => r matches Ok(c) && c@.method == HttpMethod::Delete && call_url_of(b, c@) == then_extended(realm_root(b), seq!["identities"@, d.id@]) && !c@.paginated,
            IdentityCommands::ListGroups(l) => r matches Ok(c) && c@.method == HttpMethod::Get && call_url_of(b, c@) == with_custom_method(then_extended(realm_root(b), seq!["identities"@, l.id@]), case_converted("list_groups"@, false)) && c@.paginated,
            IdentityCommands::ListRoles(l) => r matches Ok(c) && c@.method == HttpMethod::Get && call_url_of(b, c@) == with_query(with_custom_method(then_extended(realm_root(b), seq!["identities"@, l.id@]), case_converted("list_roles"@, false)), "resource_server_id"@, l.resource_server_id@) && c@.paginated,
        },
{
}

} // verus!
