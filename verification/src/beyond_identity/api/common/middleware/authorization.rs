//! Authorization of every request with a bearer token of the realm's management
//! application: a stored token while it lasts, a new one otherwise, and one retry with a
//! new token after `403 Forbidden`.
use vstd::prelude::*;
use vstd::string::*;
use crate::beyond_identity::api::common::api_client::URLBuilder;
use crate::beyond_identity::api::common::url::{then_extended, usable_base};
use crate::common::database::models::{Realm, Tenant, Token};
use crate::weburl::{opt_view, url_parse};

verus! {

/// The status `403 Forbidden`.
pub const FORBIDDEN: u16 = 403;

/// Whether a stored token that expires at `expires_at` (UNIX seconds) can still be used at
/// `now`: its expiry is not negative and lies after `now`.
pub open spec fn token_usable(expires_at: i64, now: u64) -> bool {
    expires_at >= 0 && expires_at > now
}

/// Whether the stored token `token` can still be used at `now`.
pub fn stored_token_usable(token: &Token, now: u64) -> (r: bool)
    ensures
        r == token_usable(token.expires_at, now),
{
    token.expires_at >= 0 && (token.expires_at as u64) > now
}

/// The expiry of a token issued at `now` for `expires_in` seconds, as stored.
pub fn token_expiry(now: u64, expires_in: u64) -> (r: i64)
    requires
        now + expires_in <= u64::MAX,
    ensures
        r == (now + expires_in) as i64,
{
    let expires_at = now + expires_in;
    expires_at as i64
}

/// The URL of the token endpoint of `realm`'s management application:
/// `<auth base>/v1/tenants/<tenant>/realms/<realm>/applications/<application>/token`.
/// `None` where the realm's Auth base URL cannot be used, or a step's result would not parse
/// back to itself.
pub fn token_url(tenant: Tenant, realm: Realm) -> (r: Option<String>)
    ensures
        usable_base(realm.auth_base_url@) ==> opt_view(r) == then_extended(
            then_extended(
                then_extended(url_parse(realm.auth_base_url@), seq!["v1"@, "tenants"@, tenant.id@]),
                seq!["realms"@, realm.id@],
            ),
            seq!["applications"@, realm.application_id@, "token"@],
        ),
        !usable_base(realm.auth_base_url@) ==> r is None,
{
    let application_id = realm.application_id.clone();
    let b = match URLBuilder::build(tenant, realm).auth_checked() {
        Some(b) => b,
        None => {
            return None;
        },
    };
    let mut segments: Vec<&str> = Vec::new();
    segments.push("applications");
    segments.push(application_id.as_str());
    segments.push("token");
    let ghost segs = segments@.map_values(|s: &str| s@);
    assert(segs =~= seq!["applications"@, application_id@, "token"@]);
    let b = b.add_tenant();
    if !b.has_url() {
        return None;
    }
    let b = b.add_realm();
    if !b.has_url() {
        return None;
    }
    match b.add_path(segments).to_string() {
        Ok(u) => Some(u),
        Err(_) => None,
    }
}

/// The record of a token issued for `realm` of `tenant` that expires at `expires_at`.
pub fn new_token(access_token: String, expires_at: i64, tenant: &Tenant, realm: &Realm) -> (r: Token)
    ensures
        r.access_token == access_token,
        r.expires_at == expires_at,
        r.tenant_id == tenant.id,
        r.realm_id == realm.id,
        r.application_id == realm.application_id,
{
    Token {
        access_token,
        expires_at,
        tenant_id: tenant.id.clone(),
        realm_id: realm.id.clone(),
        application_id: realm.application_id.clone(),
    }
}

/// Whether an answer calls for a new token and one more try: it is `403 Forbidden`.
pub fn needs_new_token(status: u16) -> (r: bool)
    ensures
        r == (status == FORBIDDEN),
{
    status == FORBIDDEN
}

/// What the authorization does with an answer: hand it back; hand it back and report that
/// it was refused even with a new token; or drop the stored token, fetch a new one and send
/// the request once more.
#[derive(Clone, Copy, Debug, PartialEq, Eq, Structural)]
pub enum AuthStep {
    Return,
    ReturnRefused,
    RefreshAndRetry,
}

/// The step for an answer with `status`, to a request sent with a new token where
/// `refreshed`: `403 Forbidden` calls for one new token and one more try, and is reported
/// when it comes again; every other answer is handed back.
pub open spec fn auth_step_of(status: u16, refreshed: bool) -> AuthStep {
    if status == FORBIDDEN {
        if refreshed {
            AuthStep::ReturnRefused
        } else {
            AuthStep::RefreshAndRetry
        }
    } else {
        AuthStep::Return
    }
}

/// The step for an answer with `status` (see `auth_step_of`).
pub fn auth_step(status: u16, refreshed: bool) -> (r: AuthStep)
    ensures
        r == auth_step_of(status, refreshed),
{
    if needs_new_token(status) {
        if refreshed {
            AuthStep::ReturnRefused
        } else {
            AuthStep::RefreshAndRetry
        }
    } else {
        AuthStep::Return
    }
}

/// A request is sent at most twice: after a retry with a new token, every answer is handed
/// back; and only `403 Forbidden` leads to a retry.
pub proof fn retried_at_most_once(status: u16)
    ensures
        auth_step_of(status, true) != AuthStep::RefreshAndRetry,
        auth_step_of(status, false) == AuthStep::RefreshAndRetry <==> status == FORBIDDEN,
{
}

/// Whether the stored token is deleted before a new one is fetched: only where the
/// middleware was given both a tenant and a realm.
pub fn invalidates_stored_token(tenant: &Option<Tenant>, realm: &Option<Realm>) -> (r: bool)
    ensures
        r == (tenant is Some && realm is Some),
{
    tenant.is_some() && realm.is_some()
}

} // verus!
