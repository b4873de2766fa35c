//! Credential binding jobs: how an identity is given a new credential.
use vstd::prelude::*;
use crate::beyond_identity::api::authenticator_configs::types::AuthenticatorConfig;

verus! {

/// A page of credential binding jobs.
#[derive(Clone, Debug)]
pub struct CredentialBindingJobs {
    pub credential_binding_jobs: Vec<CredentialBindingJob>,
    pub total_size: usize,
}

/// A credential binding job as the API wraps it, with the binding link where there is one.
#[derive(Clone, Debug)]
pub struct CredentialBindingJobEnvelope {
    pub credential_binding_job: CredentialBindingJob,
    pub credential_binding_link: Option<String>,
}

/// How the binding link is delivered: in the answer, or by email.
#[derive(Clone, Copy, Debug, PartialEq, Eq, Structural)]
pub enum DeliveryMethod {
    Return,
    Email,
}

/// How far a credential binding job has got.
#[derive(Clone, Copy, Debug, PartialEq, Eq, Structural)]
pub enum State {
    RequestDelivered,
    LinkSent,
    LinkOpened,
    Complete,
}

/// A request to create a credential binding job.
#[derive(Clone, Debug)]
pub struct CreateCredentialBindingJobRequest {
    pub job: CreateCredentialBindingJob,
}

/// The credential binding job to create.
#[derive(Clone, Debug)]
pub struct CreateCredentialBindingJob {
    pub delivery_method: DeliveryMethod,
    pub post_binding_redirect_uri: Option<String>,
    pub authenticator_config: Option<AuthenticatorConfig>,
    pub authenticator_config_id: Option<String>,
}

/// A credential binding job.
#[derive(Clone, Debug)]
pub struct CredentialBindingJob {
    pub id: String,
    pub realm_id: String,
    pub tenant_id: String,
    pub identity_id: String,
    pub delivery_method: DeliveryMethod,
    pub state: Option<State>,
    pub post_binding_redirect_uri: Option<String>,
    pub authenticator_config: Option<AuthenticatorConfig>,
    pub authenticator_config_id: Option<String>,
    pub expire_time: String,
    pub create_time: String,
    pub update_time: String,
}

} // verus!
