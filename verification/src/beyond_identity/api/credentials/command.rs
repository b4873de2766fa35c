//! The `credentials` commands and the request each of them sends.
use vstd::prelude::*;
use crate::beyond_identity::api::common::call::{call_url_of, realm_root, with_custom_method, HttpMethod};
use crate::beyond_identity::api::common::url::{URLBuilderView, then_extended};
use crate::beyond_identity::api::common::call::ApiCall;
use crate::beyond_identity::api::common::filter::{checked_filter, Filter};
use crate::beyond_identity::api::credentials::api::{
    get_credential_request, list_credentials_request, revoke_credential_request, CredentialsApi,
};
use crate::common::error::{BiError, BiErrorView};
use crate::copies::copy_opt_string;
use crate::weburl::opt_view;

verus! {

/// The `credentials` commands.
pub enum CredentialCommands {
    /// List an identity's credentials.
    List(List),
    /// Get a credential.
    Get(Get),
    /// Revoke a credential.
    Revoke(Revoke),
}

/// `credentials list`: the identity, an optional SCIM filter and an optional number of
/// credentials.
pub struct List {
    pub identity_id: String,
    pub filter: Option<String>,
    pub limit: Option<usize>,
}

/// `credentials get`: the credential and its identity.
pub struct Get {
    pub id: String,
    pub identity_id: String,
}

/// `credentials revoke`: the credential and its identity.
pub struct Revoke {
    pub id: String,
    pub identity_id: String,
}

impl List {
    /// The request: the listing of the identity's credentials; the filter is checked as
    /// SCIM (and not sent).
    pub fn call(&self) -> (r: Result<ApiCall, BiError>)
        ensures
            match checked_filter(opt_view(self.filter)) {
                Ok(_) => r matches Ok(c) && c@ == list_credentials_request(self.identity_id@),
                Err(m) => r matches Err(e) && e@ == BiErrorView::InvalidFilter(m),
            },
    {
        match Filter::new(copy_opt_string(&self.filter)) {
            Ok(_) => Ok(CredentialsApi::list_credentials(self.identity_id.as_str())),
            Err(e) => Err(e),
        }
    }
}

impl CredentialCommands {
    /// Whether `r` is the outcome of `call` for this command.
    pub open spec fn call_result(&self, r: Result<ApiCall, BiError>) -> bool {
        match self {
            CredentialCommands::List(l) => match checked_filter(opt_view(l.filter)) {
                Ok(_) => r matches Ok(c) && c@ == list_credentials_request(l.identity_id@),
                Err(m) => r matches Err(e) && e@ == BiErrorView::InvalidFilter(m),
            },
            CredentialCommands::Get(g) => r matches Ok(c) && c@ == get_credential_request(
                g.id@,
                g.identity_id@,
            ),
            CredentialCommands::Revoke(v) => r matches Ok(c) && c@ == revoke_credential_request(
                v.id@,
                v.identity_id@,
            ),
        }
    }

    /// The request of the command; an error where a filter is not SCIM.
    pub fn call(&self) -> (r: Result<ApiCall, BiError>)
        ensures
            self.call_result(r),
    {
        match self {
            CredentialCommands::List(l) => l.call(),
            CredentialCommands::Get(g) => Ok(
                CredentialsApi::get_credential(g.id.as_str(), g.identity_id.as_str()),
            ),
            CredentialCommands::Revoke(v) => Ok(
                CredentialsApi::revoke_credential(v.id.as_str(), v.identity_id.as_str()),
            ),
        }
    }
}

/// Each credential command sends the request of its kind for the identity whose ID was
/// given: `list` reads `<realm>/identities/<identity>/credentials` page by page where its
/// filter is SCIM (the filter is checked, not sent), and fails with the parser's message
/// otherwise; `get` reads the credential whose ID was given, and `revoke` posts `revoke`
/// to it.
pub proof fn credential_commands_send_their_requests(
    cmd: &CredentialCommands,
    b: URLBuilderView,
    r: Result<ApiCall, BiError>,
)
    requires
        cmd.call_result(r),
    ensures
        match cmd {
            CredentialCommands::List(l) => match checked_filter(opt_view(l.filter)) {
                Ok(_) => r matches Ok(c) && c@.method == HttpMethod::Get && call_url_of(b, c@) == then_extended(realm_root(b), seq!["identities"@, l.identity_id@, "credentials"@]) && c@.paginated,
                Err(m) => r matches Err(e) && e@ == BiErrorView::InvalidFilter(m),
            },
            CredentialCommands::Get(g) => r matches Ok(c) && c@.method == HttpMethod::Get && call_url_of(b, c@) == then_extended(realm_root(b), seq!["identities"@, g.identity_id@, "credentials"@, g.id@]) && !c@.paginated,
            CredentialCommands::Revoke(v) => r matches Ok(c) && c@.method == HttpMethod::Post && call_url_of(b, c@) == with_custom_method(then_extended(realm_root(b), seq!["identities"@, v.identity_id@, "credentials"@, v.id@]), "revoke"@) && !c@.paginated,
        },
{
}

} // verus!
