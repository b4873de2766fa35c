//! Resource servers of the configured realm.
use vstd::prelude::*;
use vstd::string::*;
use crate::beyond_identity::realm_urls::{page_suffix, realm_path, realm_url_with, with_page_token};

verus! {

/// A resource server: an API whose scopes and roles the realm manages.
#[derive(Clone, Debug)]
pub struct ResourceServer {
    pub id: String,
    pub realm_id: String,
    pub tenant_id: String,
    pub display_name: String,
    pub identifier: String,
}

/// The pages of a realm's resource servers: the first with 100 per page,
/// `<realm>/resource-servers?page_size=100`; the next ones with 200 per page,
/// `<realm>/resource-servers?page_size=200&page_token=<token>`.
pub fn resource_servers_page(
    api_base_url: &str,
    tenant_id: &str,
    realm_id: &str,
    page_token: Option<&str>,
) -> (r: String)
    ensures
        r@ == realm_path(api_base_url@, tenant_id@, realm_id@) + match page_token {
            None => "/resource-servers?page_size=100"@,
            Some(t) => "/resource-servers?page_size=200"@ + page_suffix("&"@, page_token),
        },
{
    match page_token {
        None => realm_url_with(api_base_url, tenant_id, realm_id, "/resource-servers?page_size=100"),
        Some(_) => {
            let u = realm_url_with(
                api_base_url,
                tenant_id,
                realm_id,
                "/resource-servers?page_size=200",
            );
            with_page_token(u, "&", page_token)
        },
    }
}

} // verus!
