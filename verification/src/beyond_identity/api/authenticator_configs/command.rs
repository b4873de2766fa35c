//! The `authenticator-configs` commands and the request each of them sends.
use vstd::prelude::*;
use crate::beyond_identity::api::common::call::{call_url_of, realm_root, case_converted, HttpMethod};
use crate::beyond_identity::api::common::url::{URLBuilderView, then_extended};
use crate::beyond_identity::api::authenticator_configs::api::{
    create_authenticator_config_request, delete_authenticator_config_request,
    get_authenticator_config_request, list_authenticator_configs_request,
    patch_config_with_id_request, AuthenticatorConfigsApi,
};
use crate::beyond_identity::api::authenticator_configs::types::{
    CreateAuthenticatorConfigRequest, OptionalAuthenticatorConfigRequest,
    PatchAuthenticatorConfigDetails, PatchAuthenticatorConfigRequest,
};
use crate::beyond_identity::api::common::call::ApiCall;
use crate::common::error::BiError;

verus! {

/// The `authenticator-configs` commands.
pub enum AuthenticatorConfigCommands {
    /// Create an authenticator configuration.
    Create(CreateAuthenticatorConfigRequest),
    /// List authenticator configurations.
    List(List),
    /// Get an authenticator configuration.
    Get(Get),
    /// Update an authenticator configuration.
    Patch(PatchAuthenticatorConfigRequest),
    /// Delete an authenticator configuration.
    Delete(Delete),
}

/// `authenticator-configs list`: an optional number of configurations.
pub struct List {
    pub limit: Option<usize>,
}

/// `authenticator-configs get`: the configuration's ID.
pub struct Get {
    pub id: String,
}

/// `authenticator-configs delete`: the configuration's ID.
pub struct Delete {
    pub id: String,
}

/// The ID of the configuration that a patch names.
pub open spec fn patched_id(p: PatchAuthenticatorConfigRequest) -> Seq<char> {
    match p.authenticator_config.config {
        PatchAuthenticatorConfigDetails::Embedded(c) => c.id@,
        PatchAuthenticatorConfigDetails::HostedWeb(c) => c.id@,
        PatchAuthenticatorConfigDetails::Platform(c) => c.id@,
    }
}

impl AuthenticatorConfigCommands {
    /// Whether `r` is the outcome of `call` for this command.
    pub open spec fn call_result(&self, r: Result<ApiCall, BiError>) -> bool {
        match self {
            AuthenticatorConfigCommands::Create(_) => r matches Ok(c) && c@
                == create_authenticator_config_request(),
            AuthenticatorConfigCommands::List(_) => r matches Ok(c) && c@
                == list_authenticator_configs_request(),
            AuthenticatorConfigCommands::Get(g) => r matches Ok(c) && c@
                == get_authenticator_config_request(g.id@),
            AuthenticatorConfigCommands::Patch(p) => r matches Ok(c) && c@
                == patch_config_with_id_request(patched_id(*p)),
            AuthenticatorConfigCommands::Delete(d) => r matches Ok(c) && c@
                == delete_authenticator_config_request(d.id@),
        }
    }

    /// The request of the command.
    pub fn call(&self) -> (r: Result<ApiCall, BiError>)
        ensures
            self.call_result(r),
    {
        match self {
            AuthenticatorConfigCommands::Create(_) => Ok(
                AuthenticatorConfigsApi::create_authenticator_config(),
            ),
            AuthenticatorConfigCommands::List(_) => Ok(
                AuthenticatorConfigsApi::list_authenticator_configs(),
            ),
            AuthenticatorConfigCommands::Get(g) => Ok(
                AuthenticatorConfigsApi::get_authenticator_config(g.id.as_str()),
            ),
            AuthenticatorConfigCommands::Patch(p) => {
                let body = OptionalAuthenticatorConfigRequest::from(p);
                AuthenticatorConfigsApi::patch_authenticator_config(&body)
            },
            AuthenticatorConfigCommands::Delete(d) => Ok(
                AuthenticatorConfigsApi::delete_authenticator_config(d.id.as_str()),
            ),
        }
    }
}

/// Each authenticator configuration command sends the request of its kind to the
/// configured realm's configurations, `<realm>/authenticator-configs`: `create` posts
/// there, `list` reads it page by page; `get` and `delete` address the configuration whose
/// ID was given, and `patch` the one that the patch names.
pub proof fn authenticator_config_commands_send_their_requests(
    cmd: &AuthenticatorConfigCommands,
    b: URLBuilderView,
    r: Result<ApiCall, BiError>,
)
    requires
        cmd.call_result(r),
    ensures
        match cmd {
            AuthenticatorConfigCommands::Create(_) => r matches Ok(c) && c@.method == HttpMethod::Post && call_url_of(b, c@) == then_extended(realm_root(b), seq![case_converted("authenticator_configs"@, true)]) && !c@.paginated,
            AuthenticatorConfigCommands::List(_) => r matches Ok(c) && c@.method == HttpMethod::Get && call_url_of(b, c@) == then_extended(realm_root(b), seq![case_converted("authenticator_configs"@, true)]) && c@.paginated,
            AuthenticatorConfigCommands::Get(g) => r matches Ok(c) && c@.method == HttpMethod::Get && call_url_of(b, c@) == then_extended(realm_root(b), seq![case_converted("authenticator_configs"@, true), g.id@]) && !c@.paginated,
            AuthenticatorConfigCommands::Patch(p) => r matches Ok(c) && c@.method == HttpMethod::Patch && call_url_of(b, c@) == then_extended(realm_root(b), seq![case_converted("authenticator_configs"@, true), patched_id(*p)]) && !c@.paginated,
            AuthenticatorConfigCommands::Delete(d) => r matches Ok(c) && c@.method == HttpMethod::Delete && call_url_of(b, c@) == then_extended(realm_root(b), seq![case_converted("authenticator_configs"@, true), d.id@]) && !c@.paginated,
        },
{
}

} // verus!
