//! Creating an administrator: an identity for the email address, added to the Super
//! Administrators role of the Beyond Identity Management API.
use vstd::prelude::*;
use vstd::string::*;
use crate::beyond_identity::api::roles::types::Role;
use crate::beyond_identity::realm_urls::{realm_path, realm_url_around, realm_url_with};
use crate::beyond_identity::resource_servers::ResourceServer;
use crate::common::error::{string_error, BiError, BiErrorView};
use crate::text::same_text;

verus! {

/// Whether `rs` is the Beyond Identity Management API: its identifier is `beyondidentity`.
pub open spec fn is_management_api_server(rs: ResourceServer) -> bool {
    rs.identifier@ == "beyondidentity"@
}

/// Whether `role` is the Super Administrators role.
pub open spec fn is_super_admin_role(role: Role) -> bool {
    role.display_name@ == "Super Administrators"@
}

/// The first Beyond Identity Management API resource server among `servers` (by index);
/// an error where there is none.
pub fn management_api_server(servers: &Vec<ResourceServer>) -> (r: Result<usize, BiError>)
    ensures
        match r {
            Ok(i) => i < servers@.len() && is_management_api_server(servers@[i as int])
                && forall|j: int| 0 <= j < i ==> !is_management_api_server(#[trigger] servers@[j]),
            Err(e) => e@ == BiErrorView::StringError(
                "No beyondidentity resource server found in your realm"@,
            ) && forall|j: int|
                0 <= j < servers@.len() ==> !is_management_api_server(#[trigger] servers@[j]),
        },
{
    let mut i: usize = 0;
    while i < servers.len()
        invariant
            i <= servers@.len(),
            forall|j: int| 0 <= j < i ==> !is_management_api_server(#[trigger] servers@[j]),
        decreases servers@.len() - i,
    {
        if same_text(servers[i].identifier.as_str(), "beyondidentity") {
            return Ok(i);
        }
        i += 1;
    }
    Err(string_error("No beyondidentity resource server found in your realm"))
}

/// The first Super Administrators role among `roles` (by index); an error where there is
/// none.
pub fn super_admin_role(roles: &Vec<Role>) -> (r: Result<usize, BiError>)
    ensures
        match r {
            Ok(i) => i < roles@.len() && is_super_admin_role(roles@[i as int])
                && forall|j: int| 0 <= j < i ==> !is_super_admin_role(#[trigger] roles@[j]),
            Err(e) => e@ == BiErrorView::StringError(
                "No Super Administrators role found in your Beyond Identity Management API resource server"@,
            ) && forall|j: int| 0 <= j < roles@.len() ==> !is_super_admin_role(#[trigger] roles@[j]),
        },
{
    let mut i: usize = 0;
    while i < roles.len()
        invariant
            i <= roles@.len(),
            forall|j: int| 0 <= j < i ==> !is_super_admin_role(#[trigger] roles@[j]),
        decreases roles@.len() - i,
    {
        if same_text(roles[i].display_name.as_str(), "Super Administrators") {
            return Ok(i);
        }
        i += 1;
    }
    Err(
        string_error(
            "No Super Administrators role found in your Beyond Identity Management API resource server",
        ),
    )
}

/// The identity created for an administrator: active, named by the email address, which is
/// also its username and primary email address (traits `traits_v0`).
#[derive(Clone, Debug)]
pub struct AdminIdentityRequest {
    pub display_name: String,
    pub status: String,
    pub traits_type: String,
    pub username: String,
    pub primary_email_address: String,
}

/// The identity to create for the administrator with address `email`.
pub fn admin_identity_request(email: &str) -> (r: AdminIdentityRequest)
    ensures
        r.display_name@ == email@,
        r.status@ == "active"@,
        r.traits_type@ == "traits_v0"@,
        r.username@ == email@,
        r.primary_email_address@ == email@,
{
    AdminIdentityRequest {
        display_name: String::from_str(email),
        status: String::from_str("active"),
        traits_type: String::from_str("traits_v0"),
        username: String::from_str(email),
        primary_email_address: String::from_str(email),
    }
}

/// Where identities are created: `<realm>/identities`.
pub fn identities_url(api_base_url: &str, tenant_id: &str, realm_id: &str) -> (r: String)
    ensures
        r@ == realm_path(api_base_url@, tenant_id@, realm_id@) + "/identities"@,
{
    realm_url_with(api_base_url, tenant_id, realm_id, "/identities")
}

/// Where members are added to a role:
/// `<realm>/resource-servers/<server>/roles/<role>:addMembers`.
pub fn add_role_members_url(
    api_base_url: &str,
    tenant_id: &str,
    realm_id: &str,
    resource_server_id: &str,
    role_id: &str,
) -> (r: String)
    ensures
        r@ == realm_path(api_base_url@, tenant_id@, realm_id@) + "/resource-servers/"@
            + resource_server_id@ + "/roles/"@ + role_id@ + ":addMembers"@,
{
    let mut u = realm_url_around(
        api_base_url,
        tenant_id,
        realm_id,
        "/resource-servers/",
        resource_server_id,
        "/roles/",
    );
    u.append(role_id);
    u.append(":addMembers");
    u
}

} // verus!
