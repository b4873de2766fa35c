//! The requests of the credential binding jobs API.
use vstd::prelude::*;
use vstd::string::*;
use crate::beyond_identity::api::common::call::{call_url_of, realm_root};
use crate::beyond_identity::api::common::url::{then_extended, URLBuilderView};
use crate::beyond_identity::api::common::call::{
    case_converted, convert_case, segments3, segments4, ApiCall, ApiCallView, HttpMethod, Scope, ScopeView,
};

verus! {

/// The request `POST <realm>/identities/<identity_id>/credential-binding-jobs`.
pub open spec fn create_credential_binding_job_request(identity_id: Seq<char>) -> ApiCallView {
    ApiCallView {
        method: HttpMethod::Post,
        scope: ScopeView::Realm,
        segments: seq![
            "identities"@,
            identity_id,
            case_converted("credential_binding_jobs"@, true),
        ],
        custom_method: None,
        query: None,
        paginated: false,
    }
}

/// The request `GET <realm>/identities/<identity_id>/credential-binding-jobs`.
pub open spec fn list_credential_binding_jobs_request(identity_id: Seq<char>) -> ApiCallView {
    ApiCallView {
        method: HttpMethod::Get,
        scope: ScopeView::Realm,
        segments: seq![
            "identities"@,
            identity_id,
            case_converted("credential_binding_jobs"@, true),
        ],
        custom_method: None,
        query: None,
        paginated: true,
    }
}

/// The request `GET <realm>/identities/<identity_id>/credential-binding-jobs/<credential_binding_job_id>`.
pub open spec fn get_credential_binding_job_request(
    credential_binding_job_id: Seq<char>,
    identity_id: Seq<char>,
) -> ApiCallView {
    ApiCallView {
        method: HttpMethod::Get,
        scope: ScopeView::Realm,
        segments: seq![
            "identities"@,
            identity_id,
            case_converted("credential_binding_jobs"@, true),
            credential_binding_job_id,
        ],
        custom_method: None,
        query: None,
        paginated: false,
    }
}

/// The requests of the credential binding jobs API.
pub struct CredentialBindingJobsApi;

impl CredentialBindingJobsApi {
    /// `POST <realm>/identities/<identity_id>/credential-binding-jobs`:
    /// creates a credential binding job for an identity.
    pub fn create_credential_binding_job(identity_id: &str) -> (r: ApiCall)
        ensures
            r@ == create_credential_binding_job_request(identity_id@),
    {
        let resource = convert_case("credential_binding_jobs", true);
        ApiCall {
            method: HttpMethod::Post,
            scope: Scope::Realm,
            segments: segments3("identities", identity_id, resource.as_str()),
            custom_method: None,
            query: None,
            paginated: false,
        }
    }

    /// `GET <realm>/identities/<identity_id>/credential-binding-jobs`:
    /// lists an identity's credential binding jobs, page by page.
    pub fn list_credential_binding_jobs(identity_id: &str) -> (r: ApiCall)
        ensures
            r@ == list_credential_binding_jobs_request(identity_id@),
    {
        let resource = convert_case("credential_binding_jobs", true);
        ApiCall {
            method: HttpMethod::Get,
            scope: Scope::Realm,
            segments: segments3("identities", identity_id, resource.as_str()),
            custom_method: None,
            query: None,
            paginated: true,
        }
    }

    /// `GET <realm>/identities/<identity_id>/credential-binding-jobs/<credential_binding_job_id>`:
    /// reads a credential binding job.
    pub fn get_credential_binding_job(credential_binding_job_id: &str, identity_id: &str) -> (r: ApiCall)
        ensures
            r@ == get_credential_binding_job_request(credential_binding_job_id@, identity_id@),
    {
        let resource = convert_case("credential_binding_jobs", true);
        ApiCall {
            method: HttpMethod::Get,
            scope: Scope::Realm,
            segments: segments4("identities", identity_id, resource.as_str(), credential_binding_job_id),
            custom_method: None,
            query: None,
            paginated: false,
        }
    }
}

/// The credential binding job requests address the jobs of the identity they name, in the
/// configured realm, at `<realm>/identities/<identity>/credential-binding-jobs`: creating
/// posts there, listing reads it page by page, and reading one job gets `.../<job>`.
pub proof fn binding_job_requests_address_the_identitys_jobs(
    b: URLBuilderView,
    identity_id: Seq<char>,
    job_id: Seq<char>,
)
    ensures
        ({
            let jobs = then_extended(realm_root(b), seq!["identities"@, identity_id, case_converted("credential_binding_jobs"@, true)]);
            let job = then_extended(realm_root(b), seq!["identities"@, identity_id, case_converted("credential_binding_jobs"@, true), job_id]);
            &&& call_url_of(b, create_credential_binding_job_request(identity_id)) == jobs
            &&& create_credential_binding_job_request(identity_id).method == HttpMethod::Post
            &&& !create_credential_binding_job_request(identity_id).paginated
            &&& call_url_of(b, list_credential_binding_jobs_request(identity_id)) == jobs
            &&& list_credential_binding_jobs_request(identity_id).method == HttpMethod::Get
            &&& list_credential_binding_jobs_request(identity_id).paginated
            &&& call_url_of(b, get_credential_binding_job_request(job_id, identity_id)) == job
            &&& get_credential_binding_job_request(job_id, identity_id).method == HttpMethod::Get
            &&& !get_credential_binding_job_request(job_id, identity_id).paginated
        }),
{
}

} // verus!
