//! The requests of the credentials API.
use vstd::prelude::*;
use vstd::string::*;
use crate::beyond_identity::api::common::call::{call_url_of, realm_root, with_custom_method};
use crate::beyond_identity::api::common::url::{then_extended, URLBuilderView};
use crate::beyond_identity::api::common::call::{
    segments3, segments4, ApiCall, ApiCallView, HttpMethod, Scope, ScopeView,
};

verus! {

/// The request `GET <realm>/identities/<identity_id>/credentials`.
pub open spec fn list_credentials_request(identity_id: Seq<char>) -> ApiCallView {
    ApiCallView {
        method: HttpMethod::Get,
        scope: ScopeView::Realm,
        segments: seq!["identities"@, identity_id, "credentials"@],
        custom_method: None,
        query: None,
        paginated: true,
    }
}

/// The request `GET <realm>/identities/<identity_id>/credentials/<credential_id>`.
pub open spec fn get_credential_request(
    credential_id: Seq<char>,
    identity_id: Seq<char>,
) -> ApiCallView {
    ApiCallView {
        method: HttpMethod::Get,
        scope: ScopeView::Realm,
        segments: seq!["identities"@, identity_id, "credentials"@, credential_id],
        custom_method: None,
        query: None,
        paginated: false,
    }
}

/// The request `POST <realm>/identities/<identity_id>/credentials/<credential_id>:revoke`.
pub open spec fn revoke_credential_request(
    credential_id: Seq<char>,
    identity_id: Seq<char>,
) -> ApiCallView {
    ApiCallView {
        method: HttpMethod::Post,
        scope: ScopeView::Realm,
        segments: seq!["identities"@, identity_id, "credentials"@, credential_id],
        custom_method: Some("revoke"@),
        query: None,
        paginated: false,
    }
}

/// The requests of the credentials API.
pub struct CredentialsApi;

impl CredentialsApi {
    /// `GET <realm>/identities/<identity_id>/credentials`:
    /// lists an identity's credentials, page by page.
    pub fn list_credentials(identity_id: &str) -> (r: ApiCall)
        ensures
            r@ == list_credentials_request(identity_id@),
    {
        ApiCall {
            method: HttpMethod::Get,
            scope: Scope::Realm,
            segments: segments3("identities", identity_id, "credentials"),
            custom_method: None,
            query: None,
            paginated: true,
        }
    }

    /// `GET <realm>/identities/<identity_id>/credentials/<credential_id>`: reads a credential.
    pub fn get_credential(credential_id: &str, identity_id: &str) -> (r: ApiCall)
        ensures
            r@ == get_credential_request(credential_id@, identity_id@),
    {
        ApiCall {
            method: HttpMethod::Get,
            scope: Scope::Realm,
            segments: segments4("identities", identity_id, "credentials", credential_id),
            custom_method: None,
            query: None,
            paginated: false,
        }
    }

    /// `POST <realm>/identities/<identity_id>/credentials/<credential_id>:revoke`:
    /// revokes a credential.
    pub fn revoke_credential(credential_id: &str, identity_id: &str) -> (r: ApiCall)
        ensures
            r@ == revoke_credential_request(credential_id@, identity_id@),
    {
        ApiCall {
            method: HttpMethod::Post,
            scope: Scope::Realm,
            segments: segments4("identities", identity_id, "credentials", credential_id),
            custom_method: Some(String::from_str("revoke")),
            query: None,
            paginated: false,
        }
    }
}

/// The credential requests address the credentials of the identity they name, in the
/// configured realm: listing reads `<realm>/identities/<identity>/credentials` page by
/// page; reading one credential gets `.../credentials/<credential>`, and revoking it posts
/// the custom method `revoke` there.
pub proof fn credential_requests_address_the_identitys_credentials(
    b: URLBuilderView,
    identity_id: Seq<char>,
    credential_id: Seq<char>,
)
    ensures
        ({
            let credentials = then_extended(realm_root(b), seq!["identities"@, identity_id, "credentials"@]);
            let credential = then_extended(realm_root(b), seq!["identities"@, identity_id, "credentials"@, credential_id]);
            &&& call_url_of(b, list_credentials_request(identity_id)) == credentials
            &&& list_credentials_request(identity_id).method == HttpMethod::Get
            &&& list_credentials_request(identity_id).paginated
            &&& call_url_of(b, get_credential_request(credential_id, identity_id)) == credential
            &&& get_credential_request(credential_id, identity_id).method == HttpMethod::Get
            &&& !get_credential_request(credential_id, identity_id).paginated
            &&& call_url_of(b, revoke_credential_request(credential_id, identity_id)) == with_custom_method(credential, "revoke"@)
            &&& revoke_credential_request(credential_id, identity_id).method == HttpMethod::Post
            &&& !revoke_credential_request(credential_id, identity_id).paginated
        }),
{
}

} // verus!
