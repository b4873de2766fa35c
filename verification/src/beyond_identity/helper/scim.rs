//! Inbound SCIM from Okta: the Okta registration, the SCIM application and its token.
use vstd::prelude::*;
use vstd::string::*;
use crate::beyond_identity::realm_urls::{realm_path, realm_url_around, realm_url_with};
use crate::common::error::{BiError, BiErrorView};

verus! {

/// A resource server as the SCIM set-up reads it.
#[derive(Debug)]
pub struct ResourceServer {
    pub id: String,
    pub display_name: String,
}

/// The resource servers of a realm.
#[derive(Debug)]
pub struct ResourceServerResponse {
    pub resource_servers: Vec<ResourceServer>,
}

/// The Okta registration to create: Okta's domain and API token, the attribute that routes
/// users to Beyond Identity, enabled.
#[derive(Debug)]
pub struct OktaRegistrationPayload {
    pub domain: String,
    pub okta_token: String,
    pub attribute_name: String,
    pub is_enabled: bool,
}

/// The Okta registration as the API reports it.
#[derive(Debug)]
pub struct OktaRegistrationResponse {
    pub domain: String,
    pub okta_token: String,
    pub attribute_name: String,
    pub is_enabled: bool,
}

/// The SCIM application as the API reports it.
#[derive(Debug, Clone)]
pub struct BeyondIdentityAppResponse {
    pub id: String,
    pub realm_id: String,
    pub tenant_id: String,
    pub display_name: String,
    pub protocol_config: ProtocolConfig,
}

/// The OAuth client of the SCIM application.
#[derive(Debug, Clone)]
pub struct ProtocolConfig {
    pub client_id: String,
    pub client_secret: String,
    pub token_endpoint_auth_method: String,
}

/// A token issued to the SCIM application.
#[derive(Debug)]
pub struct ApiTokenResponse {
    pub access_token: String,
}

/// The SCIM application and the bearer token that Okta uses with it.
#[derive(Debug)]
pub struct BiScimConfig {
    pub scim_application_config: BeyondIdentityAppResponse,
    pub oauth_bearer_token: String,
}

/// The SCIM application to create: a confidential OAuth client of the resource server
/// `resource_server_id` with the `scim:all` scope and the client credentials grant, whose
/// tokens last 90 days (in minutes), classified for SCIM with Okta registration.
#[derive(Debug)]
pub struct ScimApplicationRequest {
    pub display_name: String,
    pub resource_server_id: String,
    pub protocol_type: String,
    pub allowed_scopes: Vec<String>,
    pub confidentiality: String,
    pub grant_type: Vec<String>,
    pub redirect_uris: Vec<String>,
    pub expires_after: u32,
    pub classification: String,
}

/// The error of a SCIM set-up request that failed: the body, reported as a bad request
/// whatever the status was.
pub fn scim_request_error(body: String) -> (r: BiError)
    ensures
        r@ == BiErrorView::RequestError(400, body@),
{
    BiError::RequestError(400, body)
}

/// The ID of the first resource server; a not-found error where there is none.
pub fn first_resource_server(response: &ResourceServerResponse) -> (r: Result<String, BiError>)
    ensures
        response.resource_servers@.len() > 0 ==> (r matches Ok(id) && id@
            == response.resource_servers@[0].id@),
        response.resource_servers@.len() == 0 ==> (r matches Err(e) && e@
            == BiErrorView::RequestError(404, "No resource servers found"@)),
{
    if response.resource_servers.len() > 0 {
        Ok(response.resource_servers[0].id.clone())
    } else {
        Err(BiError::RequestError(404, String::from_str("No resource servers found")))
    }
}

/// The Okta registration for the Okta domain and API token and the routing attribute.
pub fn okta_registration(domain: String, okta_token: String, attribute_name: String) -> (r:
    OktaRegistrationPayload)
    ensures
        r.domain == domain,
        r.okta_token == okta_token,
        r.attribute_name == attribute_name,
        r.is_enabled,
{
    OktaRegistrationPayload { domain, okta_token, attribute_name, is_enabled: true }
}

fn one(s: &str) -> (r: Vec<String>)
    ensures
        r@.len() == 1,
        r@[0]@ == s@,
{
    let mut v: Vec<String> = Vec::new();
    v.push(String::from_str(s));
    v
}

/// The SCIM application to create for the resource server `resource_server_id`.
pub fn scim_application_request(resource_server_id: String) -> (r: ScimApplicationRequest)
    ensures
        r.display_name@ == "SCIM 2.0 Application"@,
        r.resource_server_id == resource_server_id,
        r.protocol_type@ == "oauth2"@,
        r.allowed_scopes@.len() == 1 && r.allowed_scopes@[0]@ == "scim:all"@,
        r.confidentiality@ == "confidential"@,
        r.grant_type@.len() == 1 && r.grant_type@[0]@ == "client_credentials"@,
        r.redirect_uris@.len() == 0,
        r.expires_after == 60 * 24 * 90,
        r.classification@ == "scim_with_okta_registration"@,
{
    ScimApplicationRequest {
        display_name: String::from_str("SCIM 2.0 Application"),
        resource_server_id,
        protocol_type: String::from_str("oauth2"),
        allowed_scopes: one("scim:all"),
        confidentiality: String::from_str("confidential"),
        grant_type: one("client_credentials"),
        redirect_uris: Vec::new(),
        expires_after: 60 * 24 * 90,
        classification: String::from_str("scim_with_okta_registration"),
    }
}

/// The form that asks for the SCIM application's token: the client credentials grant,
/// the `scim:all` scope, a lifetime of one year in seconds.
pub fn scim_token_form() -> (r: Vec<(String, String)>)
    ensures
        r@.len() == 3,
        r@[0].0@ == "grant_type"@ && r@[0].1@ == "client_credentials"@,
        r@[1].0@ == "scope"@ && r@[1].1@ == "scim:all"@,
        r@[2].0@ == "lifetime"@ && r@[2].1@ == "31536000"@,
{
    let mut v: Vec<(String, String)> = Vec::new();
    v.push((String::from_str("grant_type"), String::from_str("client_credentials")));
    v.push((String::from_str("scope"), String::from_str("scim:all")));
    v.push((String::from_str("lifetime"), String::from_str("31536000")));
    v
}

/// The resource servers of a realm, unpaged: `<realm>/resource-servers`.
pub fn resource_servers_url(api_base_url: &str, tenant_id: &str, realm_id: &str) -> (r: String)
    ensures
        r@ == realm_path(api_base_url@, tenant_id@, realm_id@) + "/resource-servers"@,
{
    realm_url_with(api_base_url, tenant_id, realm_id, "/resource-servers")
}

/// The realm's Okta registration: `<realm>/okta-registration`.
pub fn okta_registration_url(api_base_url: &str, tenant_id: &str, realm_id: &str) -> (r: String)
    ensures
        r@ == realm_path(api_base_url@, tenant_id@, realm_id@) + "/okta-registration"@,
{
    realm_url_with(api_base_url, tenant_id, realm_id, "/okta-registration")
}

/// Where applications are created: `<realm>/applications`.
pub fn applications_url(api_base_url: &str, tenant_id: &str, realm_id: &str) -> (r: String)
    ensures
        r@ == realm_path(api_base_url@, tenant_id@, realm_id@) + "/applications"@,
{
    realm_url_with(api_base_url, tenant_id, realm_id, "/applications")
}

/// The token endpoint of the SCIM application, on the Auth base URL and in the application's
/// own tenant and realm: `<auth base>/v1/tenants/<t>/realms/<r>/applications/<app>/token`.
pub fn scim_token_url(auth_base_url: &str, app: &BeyondIdentityAppResponse) -> (r: String)
    ensures
        r@ == realm_path(auth_base_url@, app.tenant_id@, app.realm_id@) + "/applications/"@
            + app.id@ + "/token"@,
{
    realm_url_around(
        auth_base_url,
        app.tenant_id.as_str(),
        app.realm_id.as_str(),
        "/applications/",
        app.id.as_str(),
        "/token",
    )
}

} // verus!
