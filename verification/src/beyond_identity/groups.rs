//! Group memberships of identities.
use vstd::prelude::*;
use vstd::string::*;
use crate::beyond_identity::realm_urls::{page_suffix, realm_path, realm_url_around, with_page_token};

verus! {

/// A group of identities.
#[derive(Clone, Debug)]
pub struct Group {
    pub id: String,
    pub realm_id: String,
    pub tenant_id: String,
    pub display_name: String,
}

/// The pages of the groups an identity belongs to: `<realm>/identities/<id>:listGroups`
/// first, then `...:listGroups?page_size=200&page_token=<token>`.
pub fn group_memberships_page(
    api_base_url: &str,
    tenant_id: &str,
    realm_id: &str,
    identity_id: &str,
    page_token: Option<&str>,
) -> (r: String)
    ensures
        r@ == realm_path(api_base_url@, tenant_id@, realm_id@) + "/identities/"@ + identity_id@
            + ":listGroups"@ + match page_token {
            None => seq![],
            Some(t) => "?page_size=200"@ + page_suffix("&"@, page_token),
        },
{
    let u = realm_url_around(api_base_url, tenant_id, realm_id, "/identities/", identity_id, ":listGroups");
    match page_token {
        None => {
            assert(u@ + seq![] =~= u@);
            u
        },
        Some(_) => {
            let mut u = u;
            u.append("?page_size=200");
            with_page_token(u, "&", page_token)
        },
    }
}

/// Where identities are removed from the group `group_id`:
/// `<realm>/groups/<group>:deleteMembers`.
pub fn delete_members_url(api_base_url: &str, tenant_id: &str, realm_id: &str, group_id: &str) -> (r:
    String)
    ensures
        r@ == realm_path(api_base_url@, tenant_id@, realm_id@) + "/groups/"@ + group_id@
            + ":deleteMembers"@,
{
    realm_url_around(api_base_url, tenant_id, realm_id, "/groups/", group_id, ":deleteMembers")
}

/// The pages of the members of the group `group_id`:
/// `<realm>/groups/<group>:listMembers[?page_token=<token>]`.
pub fn group_members_page(
    api_base_url: &str,
    tenant_id: &str,
    realm_id: &str,
    group_id: &str,
    page_token: Option<&str>,
) -> (r: String)
    ensures
        r@ == realm_path(api_base_url@, tenant_id@, realm_id@) + "/groups/"@ + group_id@
            + ":listMembers"@ + page_suffix("?"@, page_token),
{
    let u = realm_url_around(api_base_url, tenant_id, realm_id, "/groups/", group_id, ":listMembers");
    with_page_token(u, "?", page_token)
}

} // verus!
