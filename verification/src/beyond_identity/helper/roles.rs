//! Roles of resource servers, and the roles that identities hold.
use vstd::prelude::*;
use vstd::string::*;
use crate::beyond_identity::realm_urls::{page_suffix, realm_path, realm_url_around, with_page_token};

verus! {

/// The pages of the roles an identity holds in a resource server: first
/// `<realm>/identities/<id>:listRoles?resource_server_id=<server>`, then
/// `<realm>/identities/<id>:listRoles?page_size=200&page_token=<token>` (the later pages
/// name no resource server).
pub fn role_memberships_page(
    api_base_url: &str,
    tenant_id: &str,
    realm_id: &str,
    identity_id: &str,
    resource_server_id: &str,
    page_token: Option<&str>,
) -> (r: String)
    ensures
        r@ == realm_path(api_base_url@, tenant_id@, realm_id@) + "/identities/"@ + identity_id@
            + match page_token {
            None => ":listRoles?resource_server_id="@ + resource_server_id@,
            Some(t) => ":listRoles?page_size=200"@ + page_suffix("&"@, page_token),
        },
{
    match page_token {
        None => {
            let mut u = realm_url_around(
                api_base_url,
                tenant_id,
                realm_id,
                "/identities/",
                identity_id,
                ":listRoles?resource_server_id=",
            );
            u.append(resource_server_id);
            u
        },
        Some(_) => {
            let u = realm_url_around(
                api_base_url,
                tenant_id,
                realm_id,
                "/identities/",
                identity_id,
                ":listRoles?page_size=200",
            );
            with_page_token(u, "&", page_token)
        },
    }
}

/// The pages of the roles of a resource server: `<realm>/resource-servers/<server>/roles`
/// first, then `...roles?page_size=200&page_token=<token>`.
pub fn roles_page(
    api_base_url: &str,
    tenant_id: &str,
    realm_id: &str,
    resource_server_id: &str,
    page_token: Option<&str>,
) -> (r: String)
    ensures
        r@ == realm_path(api_base_url@, tenant_id@, realm_id@) + "/resource-servers/"@
            + resource_server_id@ + "/roles"@ + match page_token {
            None => seq![],
            Some(t) => "?page_size=200"@ + page_suffix("&"@, page_token),
        },
{
    let u = realm_url_around(api_base_url, tenant_id, realm_id, "/resource-servers/", resource_server_id, "/roles");
    match page_token {
        None => {
            assert(u@ + seq![] =~= u@);
            u
        },
        Some(_) => {
            let mut u = u;
            u.append("?page_size=200");
            with_page_token(u, "&", page_token)
        },
    }
}

/// Where members are removed from a role:
/// `<realm>/resource-servers/<server>/roles/<role>:deleteMembers`.
pub fn delete_role_members_url(
    api_base_url: &str,
    tenant_id: &str,
    realm_id: &str,
    resource_server_id: &str,
    role_id: &str,
) -> (r: String)
    ensures
        r@ == realm_path(api_base_url@, tenant_id@, realm_id@) + "/resource-servers/"@
            + resource_server_id@ + "/roles/"@ + role_id@ + ":deleteMembers"@,
{
    let mut u = realm_url_around(
        api_base_url,
        tenant_id,
        realm_id,
        "/resource-servers/",
        resource_server_id,
        "/roles/",
    );
    u.append(role_id);
    u.append(":deleteMembers");
    u
}

} // verus!
