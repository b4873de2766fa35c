//! Credentials (passkeys) of identities.
use vstd::prelude::*;

verus! {

/// A page of credentials.
#[derive(Clone, Debug)]
pub struct Credentials {
    pub credentials: Vec<Credential>,
    pub total_size: usize,
}

/// A credential as the API wraps it.
#[derive(Clone, Debug)]
pub struct CredentialEnvelope {
    pub credential: Credential,
}

/// A credential of an identity.
#[derive(Clone, Debug)]
pub struct Credential {
    pub id: String,
    pub realm_id: String,
    pub tenant_id: String,
    pub identity_id: String,
    pub state: String,
    pub csr_type: String,
    pub jwk_json: String,
    pub jwk_thumbprint: String,
    pub create_time: String,
    pub update_time: String,
}

} // verus!
