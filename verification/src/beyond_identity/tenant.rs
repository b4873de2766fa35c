//! The configuration of the tenant that commands act on, and how it is provisioned from
//! the issuer of an API token.
use vstd::prelude::*;
use vstd::string::*;
use crate::common::error::{string_error, BiError, BiErrorView};
use crate::text::{replace_all, replaced, same_text};
use crate::weburl::{
    host_str, opt_view, parse_url, path_segments, url_host, url_parse, url_parse_error,
    url_path_segments,
};

verus! {

/// A provisioned tenant: its identifiers, the management application's credentials,
/// and the base URLs of its APIs.
#[derive(Clone, Debug)]
pub struct TenantConfig {
    pub tenant_id: String,
    pub realm_id: String,
    pub application_id: String,
    pub client_id: String,
    pub client_secret: String,
    pub open_id_configuration_url: String,
    pub auth_base_url: String,
    pub api_base_url: String,
}

/// What the issuer URL of a token says of the tenant: the identifiers in its path and the
/// base URLs of its host.
#[derive(Clone, Debug)]
pub struct IssuerParts {
    pub tenant_id: String,
    pub realm_id: String,
    pub application_id: String,
    pub auth_base_url: String,
    pub api_base_url: String,
    pub open_id_configuration_url: String,
}

/// The `i`-th path segment, if there is one.
pub open spec fn segment_at(segments: Option<Seq<Seq<char>>>, i: int) -> Option<Seq<char>> {
    match segments {
        Some(s) => if 0 <= i < s.len() {
            Some(s[i])
        } else {
            None
        },
        None => None,
    }
}

/// The Auth base URL of a host: `https://<host>`.
pub open spec fn auth_base_of(host: Seq<char>) -> Seq<char> {
    "https://"@ + host
}

/// The API base URL of a host: its Auth base URL with every `auth` replaced by `api`.
pub open spec fn api_base_of(host: Seq<char>) -> Seq<char> {
    replaced(auth_base_of(host), "auth"@, "api"@)
}

/// The segment `i` of a vector of path segments, if there is one.
fn segment(segments: &Option<Vec<String>>, i: usize) -> (r: Option<String>)
    ensures
        match segments {
            Some(v) => if i < v@.len() {
                r matches Some(s) && s@ == v@[i as int]@
            } else {
                r is None
            },
            None => r is None,
        },
{
    match segments {
        Some(v) => if i < v.len() {
            Some(v[i].clone())
        } else {
            None
        },
        None => None,
    }
}

/// Whether `r` is what reading the issuer URL `issuer` gives (see `issuer_parts`).
pub open spec fn issuer_result(issuer: Seq<char>, r: Result<IssuerParts, BiError>) -> bool {
    match url_parse(issuer) {
        None => r matches Err(e) && e@ == BiErrorView::InvalidUrl(url_parse_error(issuer)),
        Some(_) => {
            let segs = url_path_segments(issuer);
            if segment_at(segs, 2) is None {
                r matches Err(e) && e@ == BiErrorView::StringError("Invalid tenant ID"@)
            } else if segment_at(segs, 4) is None {
                r matches Err(e) && e@ == BiErrorView::StringError("Invalid realm ID"@)
            } else if segment_at(segs, 6) is None {
                r matches Err(e) && e@ == BiErrorView::StringError("Invalid application ID"@)
            } else if url_host(issuer) is None {
                r matches Err(e) && e@ == BiErrorView::StringError("Invalid URL host"@)
            } else {
                r matches Ok(p) && p.tenant_id@ == segment_at(segs, 2)->0
                    && p.realm_id@ == segment_at(segs, 4)->0
                    && p.application_id@ == segment_at(segs, 6)->0
                    && p.auth_base_url@ == auth_base_of(url_host(issuer)->0)
                    && p.api_base_url@ == api_base_of(url_host(issuer)->0)
                    && p.open_id_configuration_url@ == issuer + "/.well-known/openid-configuration"@
            }
        },
    }
}

/// Reads the tenant from the issuer URL of a token,
/// `https://<host>/v1/tenants/<tenant>/realms/<realm>/applications/<application>`:
/// path segments 2, 4 and 6 are the tenant, realm and application; the Auth base URL is
/// `https://<host>`, the API base URL is that with `auth` replaced by `api`, and the OpenID
/// configuration is at `<issuer>/.well-known/openid-configuration`. The first of these that
/// is missing is reported.
pub fn issuer_parts(issuer: &str) -> (r: Result<IssuerParts, BiError>)
    ensures
        issuer_result(issuer@, r),
{
    match parse_url(issuer) {
        Ok(_) => {},
        Err(e) => {
            return Err(BiError::InvalidUrl(e));
        },
    };
    let segments = path_segments(issuer);
    let ghost segs = url_path_segments(issuer@);
    assert(segs == match segments {
        Some(v) => Some(crate::text::views(v@)),
        None => None::<Seq<Seq<char>>>,
    });
    let tenant_id = match segment(&segments, 2) {
        Some(s) => s,
        None => {
            return Err(string_error("Invalid tenant ID"));
        },
    };
    let realm_id = match segment(&segments, 4) {
        Some(s) => s,
        None => {
            return Err(string_error("Invalid realm ID"));
        },
    };
    let application_id = match segment(&segments, 6) {
        Some(s) => s,
        None => {
            return Err(string_error("Invalid application ID"));
        },
    };
    let host = match host_str(issuer) {
        Some(h) => h,
        None => {
            return Err(string_error("Invalid URL host"));
        },
    };
    let mut auth_base_url = String::from_str("https://");
    auth_base_url.append(host.as_str());
    proof {
        reveal_strlit("auth");
    }
    let api_base_url = replace_all(auth_base_url.as_str(), "auth", "api");
    let mut open_id_configuration_url = String::from_str(issuer);
    open_id_configuration_url.append("/.well-known/openid-configuration");
    Ok(IssuerParts {
        tenant_id,
        realm_id,
        application_id,
        auth_base_url,
        api_base_url,
        open_id_configuration_url,
    })
}

/// What `jsonwebtoken::decode` into JSON claims makes of `token` where nothing is
/// validated (no signature, audience, expiry or required claim): the `iss` claim where it
/// is text, `None` where the claims have no such claim, or the error's debug text.
pub uninterp spec fn jwt_decoded(token: Seq<char>) -> Result<Option<Seq<char>>, Seq<char>>;

/// A decoding outcome with its texts as characters.
pub open spec fn decoded_view(d: Result<Option<String>, String>) -> Result<Option<Seq<char>>, Seq<char>> {
    match d {
        Ok(Some(i)) => Ok(Some(i@)),
        Ok(None) => Ok(None),
        Err(e) => Err(e@),
    }
}

/// `jsonwebtoken::decode` of `token` into JSON claims, with an RS256 header, without
/// checking the signature or the audience, requiring the claims `required_claims` and
/// checking the expiry against the clock where `validate_exp`: the `iss` claim where it is
/// text, `None` where there is no such claim, or the error's debug text. With nothing to
/// validate the outcome depends on the token alone (`jwt_decoded`); otherwise a success is
/// one that also comes without validation, with the same issuer, and nothing is claimed of
/// the errors, which depend on the clock.
#[verifier::external_body]
pub(crate) fn decode_token(
    token: &str,
    validate_exp: bool,
    required_claims: &Vec<String>,
) -> (r: Result<Option<String>, String>)
    ensures
        !validate_exp && required_claims@.len() == 0 ==> decoded_view(r) == jwt_decoded(token@),
        r is Ok ==> decoded_view(r) == jwt_decoded(token@),
{
    let mut validation = jsonwebtoken::Validation::new(jsonwebtoken::Algorithm::RS256);
    validation.insecure_disable_signature_validation();
    validation.validate_aud = false;
    validation.validate_exp = validate_exp;
    validation.required_spec_claims = required_claims.iter().cloned().collect();
    let key = jsonwebtoken::DecodingKey::from_secret(b"");
    match jsonwebtoken::decode::<serde_json::Value>(token, &key, &validation) {
        Ok(data) => Ok(data.claims.get("iss").and_then(|v| v.as_str()).map(|s| s.to_string())),
        Err(e) => Err(format!("{:?}", e)),
    }
}

/// Whether `r` is what provisioning gives for a token whose claims decoded to `decoded`
/// and whose validation (its expiry) was refused with `refused`, if it was: a decoding
/// error `e` gives `Failed to decode JWT: <e>`; claims without an issuer give the error of
/// a missing `iss` field; a refused validation gives `Failed to decode JWT: <error>`;
/// otherwise the result is what reading the issuer gives.
pub open spec fn token_result(
    decoded: Result<Option<Seq<char>>, Seq<char>>,
    refused: Option<Seq<char>>,
    r: Result<IssuerParts, BiError>,
) -> bool {
    match decoded {
        Err(e) => r matches Err(x) && x@ == BiErrorView::StringError("Failed to decode JWT: "@ + e),
        Ok(None) => r matches Err(x) && x@ == BiErrorView::StringError(
            "Failed to decode JWT: missing field `iss`"@,
        ),
        Ok(Some(iss)) => match refused {
            Some(e) => r matches Err(x) && x@ == BiErrorView::StringError(
                "Failed to decode JWT: "@ + e,
            ),
            None => issuer_result(iss, r),
        },
    }
}

/// The tenant read from a token whose claims decoded to `decoded` and whose validation was
/// refused with `refused`, if it was (see `token_result`).
pub fn issuer_parts_of_token(decoded: Result<Option<String>, String>, refused: Option<String>) -> (r:
    Result<IssuerParts, BiError>)
    ensures
        token_result(decoded_view(decoded), opt_view(refused), r),
{
    match decoded {
        Err(e) => {
            let mut m = String::from_str("Failed to decode JWT: ");
            m.append(e.as_str());
            Err(BiError::StringError(m))
        },
        Ok(None) => Err(string_error("Failed to decode JWT: missing field `iss`")),
        Ok(Some(iss)) => match refused {
            Some(e) => {
                let mut m = String::from_str("Failed to decode JWT: ");
                m.append(e.as_str());
                Err(BiError::StringError(m))
            },
            None => issuer_parts(iss.as_str()),
        },
    }
}

/// The tenant read from the issuer of the API token `token`: its claims are decoded; a
/// token with an issuer is then validated as provisioning asks (an `exp` claim that lies
/// ahead of the clock), and read as `issuer_parts_of_token` does. The decoding is that of
/// `token` itself; only whether and how the validation refuses it depends on the clock.
pub fn token_issuer_parts(token: &str) -> (r: Result<IssuerParts, BiError>)
    ensures
        exists|refused: Option<Seq<char>>| token_result(jwt_decoded(token@), refused, r),
        r is Ok ==> (jwt_decoded(token@) matches Ok(Some(iss)) && issuer_result(iss, r)),
{
    let decoded = decode_token(token, false, &Vec::new());
    let refused = match &decoded {
        Ok(Some(_)) => {
            let mut required: Vec<String> = Vec::new();
            required.push(String::from_str("exp"));
            match decode_token(token, true, &required) {
                Ok(_) => None,
                Err(e) => Some(e),
            }
        },
        _ => None,
    };
    let ghost d = decoded_view(decoded);
    let ghost e = opt_view(refused);
    let r = issuer_parts_of_token(decoded, refused);
    assert(token_result(d, e, r));
    r
}

/// The configuration of a tenant read from a token's issuer, with the credentials of its
/// management application.
pub fn provisioned_tenant(parts: IssuerParts, client_id: String, client_secret: String) -> (r:
    TenantConfig)
    ensures
        r.tenant_id == parts.tenant_id,
        r.realm_id == parts.realm_id,
        r.application_id == parts.application_id,
        r.client_id == client_id,
        r.client_secret == client_secret,
        r.open_id_configuration_url == parts.open_id_configuration_url,
        r.auth_base_url == parts.auth_base_url,
        r.api_base_url == parts.api_base_url,
{
    TenantConfig {
        tenant_id: parts.tenant_id,
        realm_id: parts.realm_id,
        application_id: parts.application_id,
        client_id,
        client_secret,
        open_id_configuration_url: parts.open_id_configuration_url,
        auth_base_url: parts.auth_base_url,
        api_base_url: parts.api_base_url,
    }
}

/// The credentials of an application's OAuth client.
#[derive(Clone, Debug)]
pub struct ProtocolConfig {
    pub client_id: Option<String>,
    pub client_secret: Option<String>,
}

/// An application of a realm.
#[derive(Clone, Debug)]
pub struct Application {
    pub id: String,
    pub realm_id: String,
    pub tenant_id: String,
    pub display_name: String,
    pub is_managed: bool,
    pub classification: String,
    pub protocol_config: ProtocolConfig,
}

/// A page of a realm's applications.
#[derive(Clone, Debug)]
pub struct ApplicationsResponse {
    pub applications: Vec<Application>,
    pub total_size: u32,
    pub next_page_token: Option<String>,
}

/// Whether `app` is the management API application.
pub open spec fn is_management_api(app: Application) -> bool {
    app.classification@ == "management_api"@
}

/// The index of the first management API application among `apps`, if there is one.
pub fn management_api_application(apps: &Vec<Application>) -> (r: Option<usize>)
    ensures
        match r {
            Some(i) => i < apps@.len() && is_management_api(apps@[i as int])
                && forall|j: int| 0 <= j < i ==> !is_management_api(#[trigger] apps@[j]),
            None => forall|j: int| 0 <= j < apps@.len() ==> !is_management_api(#[trigger] apps@[j]),
        },
{
    let mut i: usize = 0;
    while i < apps.len()
        invariant
            i <= apps@.len(),
            forall|j: int| 0 <= j < i ==> !is_management_api(#[trigger] apps@[j]),
        decreases apps@.len() - i,
    {
        if same_text(apps[i].classification.as_str(), "management_api") {
            return Some(i);
        }
        i += 1;
    }
    None
}

/// The page of a realm's applications with token `page_token` (the first without one):
/// `<api base>/v1/tenants/<tenant>/realms/<realm>/applications[?page_token=<token>]`.
pub fn applications_page_url(
    api_base_url: &str,
    tenant_id: &str,
    realm_id: &str,
    page_token: Option<&str>,
) -> (r: String)
    ensures
        r@ == crate::beyond_identity::realm_urls::realm_path(api_base_url@, tenant_id@, realm_id@)
            + "/applications"@ + match page_token {
            Some(t) => "?page_token="@ + t@,
            None => seq![],
        },
{
    let mut u = crate::beyond_identity::realm_urls::realm_url_with(
        api_base_url,
        tenant_id,
        realm_id,
        "/applications",
    );
    match page_token {
        Some(t) => {
            u.append("?page_token=");
            u.append(t);
        },
        None => {},
    }
    u
}

} // verus!
