//! The requests of the authenticator configurations API.
use vstd::prelude::*;
use vstd::string::*;
use crate::beyond_identity::api::common::call::{call_url_of, realm_root};
use crate::beyond_identity::api::common::url::{then_extended, URLBuilderView};
use crate::beyond_identity::api::common::call::{
    case_converted, convert_case, segments1, segments2, ApiCall, ApiCallView, HttpMethod, Scope, ScopeView,
};
use crate::beyond_identity::api::authenticator_configs::types::OptionalAuthenticatorConfigRequest;
use crate::common::error::{string_error, BiError, BiErrorView};

verus! {

/// The request `POST <realm>/authenticator-configs`.
pub open spec fn create_authenticator_config_request() -> ApiCallView {
    ApiCallView {
        method: HttpMethod::Post,
        scope: ScopeView::Realm,
        segments: seq![case_converted("authenticator_configs"@, true)],
        custom_method: None,
        query: None,
        paginated: false,
    }
}

/// The request `GET <realm>/authenticator-configs`.
pub open spec fn list_authenticator_configs_request() -> ApiCallView {
    ApiCallView {
        method: HttpMethod::Get,
        scope: ScopeView::Realm,
        segments: seq![case_converted("authenticator_configs"@, true)],
        custom_method: None,
        query: None,
        paginated: true,
    }
}

/// The request `GET <realm>/authenticator-configs/<authenticator_config_id>`.
pub open spec fn get_authenticator_config_request(
    authenticator_config_id: Seq<char>,
) -> ApiCallView {
    ApiCallView {
        method: HttpMethod::Get,
        scope: ScopeView::Realm,
        segments: seq![case_converted("authenticator_configs"@, true), authenticator_config_id],
        custom_method: None,
        query: None,
        paginated: false,
    }
}

/// The request `PATCH <realm>/authenticator-configs/<authenticator_config_id>`.
pub open spec fn patch_config_with_id_request(authenticator_config_id: Seq<char>) -> ApiCallView {
    ApiCallView {
        method: HttpMethod::Patch,
        scope: ScopeView::Realm,
        segments: seq![case_converted("authenticator_configs"@, true), authenticator_config_id],
        custom_method: None,
        query: None,
        paginated: false,
    }
}

/// The request `DELETE <realm>/authenticator-configs/<authenticator_config_id>`.
pub open spec fn delete_authenticator_config_request(
    authenticator_config_id: Seq<char>,
) -> ApiCallView {
    ApiCallView {
        method: HttpMethod::Delete,
        scope: ScopeView::Realm,
        segments: seq![case_converted("authenticator_configs"@, true), authenticator_config_id],
        custom_method: None,
        query: None,
        paginated: false,
    }
}

/// The requests of the authenticator configurations API.
pub struct AuthenticatorConfigsApi;

impl AuthenticatorConfigsApi {
    /// `POST <realm>/authenticator-configs`: creates an authenticator configuration.
    pub fn create_authenticator_config() -> (r: ApiCall)
        ensures
            r@ == create_authenticator_config_request(),
    {
        let resource = convert_case("authenticator_configs", true);
        ApiCall {
            method: HttpMethod::Post,
            scope: Scope::Realm,
            segments: segments1(resource.as_str()),
            custom_method: None,
            query: None,
            paginated: false,
        }
    }

    /// `GET <realm>/authenticator-configs`: lists authenticator configurations, page by page.
    pub fn list_authenticator_configs() -> (r: ApiCall)
        ensures
            r@ == list_authenticator_configs_request(),
    {
        let resource = convert_case("authenticator_configs", true);
        ApiCall {
            method: HttpMethod::Get,
            scope: Scope::Realm,
            segments: segments1(resource.as_str()),
            custom_method: None,
            query: None,
            paginated: true,
        }
    }

    /// `GET <realm>/authenticator-configs/<authenticator_config_id>`:
    /// reads an authenticator configuration.
    pub fn get_authenticator_config(authenticator_config_id: &str) -> (r: ApiCall)
        ensures
            r@ == get_authenticator_config_request(authenticator_config_id@),
    {
        let resource = convert_case("authenticator_configs", true);
        ApiCall {
            method: HttpMethod::Get,
            scope: Scope::Realm,
            segments: segments2(resource.as_str(), authenticator_config_id),
            custom_method: None,
            query: None,
            paginated: false,
        }
    }

    /// `PATCH <realm>/authenticator-configs/<authenticator_config_id>`:
    /// changes the authenticator configuration `authenticator_config_id`.
    pub fn patch_config_with_id(authenticator_config_id: &str) -> (r: ApiCall)
        ensures
            r@ == patch_config_with_id_request(authenticator_config_id@),
    {
        let resource = convert_case("authenticator_configs", true);
        ApiCall {
            method: HttpMethod::Patch,
            scope: Scope::Realm,
            segments: segments2(resource.as_str(), authenticator_config_id),
            custom_method: None,
            query: None,
            paginated: false,
        }
    }

    /// `DELETE <realm>/authenticator-configs/<authenticator_config_id>`:
    /// deletes an authenticator configuration.
    pub fn delete_authenticator_config(authenticator_config_id: &str) -> (r: ApiCall)
        ensures
            r@ == delete_authenticator_config_request(authenticator_config_id@),
    {
        let resource = convert_case("authenticator_configs", true);
        ApiCall {
            method: HttpMethod::Delete,
            scope: Scope::Realm,
            segments: segments2(resource.as_str(), authenticator_config_id),
            custom_method: None,
            query: None,
            paginated: false,
        }
    }

    /// The patch of the configuration that `request` names by its ID (see
    /// `patch_config_with_id`); an error where the request names none.
    pub fn patch_authenticator_config(request: &OptionalAuthenticatorConfigRequest) -> (r: Result<
        ApiCall,
        BiError,
    >)
        ensures
            match request.authenticator_config.id {
                Some(id) => r matches Ok(c) && c@ == patch_config_with_id_request(id@),
                None => r matches Err(e) && e@ == BiErrorView::StringError(
                    "ID required when patching an authenticator config"@,
                ),
            },
    {
        match &request.authenticator_config.id {
            Some(id) => Ok(Self::patch_config_with_id(id.as_str())),
            None => Err(string_error("ID required when patching an authenticator config")),
        }
    }
}

/// The authenticator configuration requests address the configured realm's
/// configurations at `<realm>/authenticator-configs`: creating posts there and listing
/// reads it page by page; each request about one configuration addresses `.../<config>`:
/// reading with `GET`, changing with `PATCH`, deleting with `DELETE`.
pub proof fn authenticator_config_requests_address_their_configs(
    b: URLBuilderView,
    config_id: Seq<char>,
)
    ensures
        ({
            let configs = then_extended(realm_root(b), seq![case_converted("authenticator_configs"@, true)]);
            let config = then_extended(realm_root(b), seq![case_converted("authenticator_configs"@, true), config_id]);
            &&& call_url_of(b, create_authenticator_config_request()) == configs
            &&& create_authenticator_config_request().method == HttpMethod::Post
            &&& !create_authenticator_config_request().paginated
            &&& call_url_of(b, list_authenticator_configs_request()) == configs
            &&& list_authenticator_configs_request().method == HttpMethod::Get
            &&& list_authenticator_configs_request().paginated
            &&& call_url_of(b, get_authenticator_config_request(config_id)) == config
            &&& get_authenticator_config_request(config_id).method == HttpMethod::Get
            &&& !get_authenticator_config_request(config_id).paginated
            &&& call_url_of(b, patch_config_with_id_request(config_id)) == config
            &&& patch_config_with_id_request(config_id).method == HttpMethod::Patch
            &&& !patch_config_with_id_request(config_id).paginated
            &&& call_url_of(b, delete_authenticator_config_request(config_id)) == config
            &&& delete_authenticator_config_request(config_id).method == HttpMethod::Delete
            &&& !delete_authenticator_config_request(config_id).paginated
        }),
{
}

} // verus!
