//! The bearer token of the management application: reused from the token file while it
//! lasts and belongs to the configured tenant, realm and application; fetched otherwise.
use vstd::prelude::*;
use vstd::string::*;
use crate::beyond_identity::realm_urls::{realm_path, realm_url_around};
use crate::beyond_identity::tenant::TenantConfig;

verus! {

/// A token as kept in the token file.
#[derive(Clone, Debug)]
pub struct StoredToken {
    pub access_token: String,
    pub expires_at: u64,
    pub tenant_id: String,
    pub realm_id: String,
    pub application_id: String,
}

/// Whether `token` can be used at `now` for `tenant_config`: it expires after `now` and was
/// issued for the configured tenant, realm and application.
pub open spec fn stored_token_fits(token: StoredToken, now: u64, tenant_config: TenantConfig) -> bool {
    &&& token.expires_at > now
    &&& token.tenant_id@ == tenant_config.tenant_id@
    &&& token.realm_id@ == tenant_config.realm_id@
    &&& token.application_id@ == tenant_config.application_id@
}

/// Whether the stored `token` can be used at `now` for `tenant_config`.
pub fn stored_token_valid(token: &StoredToken, now: u64, tenant_config: &TenantConfig) -> (r: bool)
    ensures
        r == stored_token_fits(*token, now, *tenant_config),
{
    token.expires_at > now && token.tenant_id == tenant_config.tenant_id && token.realm_id
        == tenant_config.realm_id && token.application_id == tenant_config.application_id
}

/// The token endpoint of the configured application:
/// `<auth base>/v1/tenants/<tenant>/realms/<realm>/applications/<application>/token`.
pub fn token_endpoint(auth_base_url: &str, tenant_config: &TenantConfig) -> (r: String)
    ensures
        r@ == realm_path(auth_base_url@, tenant_config.tenant_id@, tenant_config.realm_id@)
            + "/applications/"@ + tenant_config.application_id@ + "/token"@,
{
    realm_url_around(
        auth_base_url,
        tenant_config.tenant_id.as_str(),
        tenant_config.realm_id.as_str(),
        "/applications/",
        tenant_config.application_id.as_str(),
        "/token",
    )
}

/// The record of a token issued at `now` for `expires_in` seconds for `tenant_config`.
pub fn stored_token(access_token: String, now: u64, expires_in: u64, tenant_config: &TenantConfig)
    -> (r: StoredToken)
    requires
        now + expires_in <= u64::MAX,
    ensures
        r.access_token == access_token,
        r.expires_at == now + expires_in,
        r.tenant_id == tenant_config.tenant_id,
        r.realm_id == tenant_config.realm_id,
        r.application_id == tenant_config.application_id,
{
    StoredToken {
        access_token,
        expires_at: now + expires_in,
        tenant_id: tenant_config.tenant_id.clone(),
        realm_id: tenant_config.realm_id.clone(),
        application_id: tenant_config.application_id.clone(),
    }
}

/// A token issued at `now` for `expires_in` seconds is still usable at `now`, unless it
/// was issued for no time at all; and it is refused from its expiry on.
pub proof fn fresh_token_is_reused(
    access_token: String,
    now: u64,
    expires_in: u64,
    later: u64,
    tenant_config: TenantConfig,
    token: StoredToken,
)
    requires
        now + expires_in <= u64::MAX,
        token.access_token == access_token,
        token.expires_at == now + expires_in,
        token.tenant_id == tenant_config.tenant_id,
        token.realm_id == tenant_config.realm_id,
        token.application_id == tenant_config.application_id,
    ensures
        stored_token_fits(token, later, tenant_config) <==> later < now + expires_in,
{
}

} // verus!
