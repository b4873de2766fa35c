//! The `credential-binding-jobs` commands and the request each of them sends.
use vstd::prelude::*;
use crate::beyond_identity::api::common::call::{call_url_of, realm_root, case_converted, HttpMethod};
use crate::beyond_identity::api::common::url::{URLBuilderView, then_extended};
use crate::beyond_identity::api::common::call::ApiCall;
use crate::beyond_identity::api::credential_binding_jobs::api::{
    create_credential_binding_job_request, get_credential_binding_job_request,
    list_credential_binding_jobs_request, CredentialBindingJobsApi,
};
use crate::beyond_identity::api::credential_binding_jobs::types::CreateCredentialBindingJobRequest;

verus! {

/// The `credential-binding-jobs` commands.
pub enum CredentialBindingJobCommands {
    /// Create a credential binding job for an identity.
    Create(Create),
    /// List an identity's credential binding jobs.
    List(List),
    /// Get a credential binding job.
    Get(Get),
}

/// `credential-binding-jobs create`: the identity and the job.
pub struct Create {
    pub identity_id: String,
    pub request: CreateCredentialBindingJobRequest,
}

/// `credential-binding-jobs list`: the identity and an optional number of jobs.
pub struct List {
    pub identity_id: String,
    pub limit: Option<usize>,
}

/// `credential-binding-jobs get`: the job and its identity.
pub struct Get {
    pub id: String,
    pub identity_id: String,
}

impl CredentialBindingJobCommands {
    /// Whether `r` is the outcome of `call` for this command.
    pub open spec fn call_result(&self, r: ApiCall) -> bool {
        match self {
            CredentialBindingJobCommands::Create(c) => r@ == create_credential_binding_job_request(
                c.identity_id@,
            ),
            CredentialBindingJobCommands::List(l) => r@ == list_credential_binding_jobs_request(
                l.identity_id@,
            ),
            CredentialBindingJobCommands::Get(g) => r@ == get_credential_binding_job_request(
                g.id@,
                g.identity_id@,
            ),
        }
    }

    /// The request of the command.
    pub fn call(&self) -> (r: ApiCall)
        ensures
            self.call_result(r),
    {
        match self {
            CredentialBindingJobCommands::Create(c) => CredentialBindingJobsApi::create_credential_binding_job(
                c.identity_id.as_str(),
            ),
            CredentialBindingJobCommands::List(l) => CredentialBindingJobsApi::list_credential_binding_jobs(
                l.identity_id.as_str(),
            ),
            CredentialBindingJobCommands::Get(g) => CredentialBindingJobsApi::get_credential_binding_job(
                g.id.as_str(),
                g.identity_id.as_str(),
            ),
        }
    }
}

/// Each credential binding job command sends the request of its kind for the identity
/// whose ID was given, at `<realm>/identities/<identity>/credential-binding-jobs`: `create`
/// posts there, `list` reads it page by page, `get` reads the job whose ID was given.
pub proof fn binding_job_commands_send_their_requests(
    cmd: &CredentialBindingJobCommands,
    b: URLBuilderView,
    r: ApiCall,
)
    requires
        cmd.call_result(r),
    ensures
        match cmd {
            CredentialBindingJobCommands::Create(c) => r@.method == HttpMethod::Post && call_url_of(b, r@) == then_extended(realm_root(b), seq!["identities"@, c.identity_id@, case_converted("credential_binding_jobs"@, true)]) && !r@.paginated,
            CredentialBindingJobCommands::List(l) => r@.method == HttpMethod::Get && call_url_of(b, r@) == then_extended(realm_root(b), seq!["identities"@, l.identity_id@, case_converted("credential_binding_jobs"@, true)]) && r@.paginated,
            CredentialBindingJobCommands::Get(g) => r@.method == HttpMethod::Get && call_url_of(b, r@) == then_extended(realm_root(b), seq!["identities"@, g.identity_id@, case_converted("credential_binding_jobs"@, true), g.id@]) && !r@.paginated,
        },
{
}

} // verus!
