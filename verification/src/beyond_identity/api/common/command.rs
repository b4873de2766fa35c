//! The commands that call the API directly, one group per resource.
use vstd::prelude::*;
use crate::beyond_identity::api::common::call::ApiCall;
use crate::beyond_identity::api::credentials::command::CredentialCommands;
use crate::beyond_identity::api::groups::command::GroupCommands;
use crate::beyond_identity::api::identities::command::IdentityCommands;
use crate::beyond_identity::api::realms::command::RealmCommands;
use crate::beyond_identity::api::tenants::command::TenantCommands;
use crate::common::error::BiError;

verus! {

/// Commands for interacting with the Beyond Identity API resources.
pub enum BeyondIdentityApiCommands {
    Tenants(TenantCommands),
    Realms(RealmCommands),
    Groups(GroupCommands),
    Identities(IdentityCommands),
    Credentials(CredentialCommands),
}

impl BeyondIdentityApiCommands {
    /// The request of the resource's command (see each resource's `call`).
    pub fn call(&self) -> (r: Result<ApiCall, BiError>)
        ensures
            match self {
                BeyondIdentityApiCommands::Tenants(c) => r matches Ok(x) && c.call_result(x),
                BeyondIdentityApiCommands::Realms(c) => c.call_result(r),
                BeyondIdentityApiCommands::Groups(c) => c.call_result(r),
                BeyondIdentityApiCommands::Identities(c) => c.call_result(r),
                BeyondIdentityApiCommands::Credentials(c) => c.call_result(r),
            },
    {
        match self {
            BeyondIdentityApiCommands::Tenants(c) => Ok(c.call()),
            BeyondIdentityApiCommands::Realms(c) => c.call(),
            BeyondIdentityApiCommands::Groups(c) => c.call(),
            BeyondIdentityApiCommands::Identities(c) => c.call(),
            BeyondIdentityApiCommands::Credentials(c) => c.call(),
        }
    }
}

} // verus!
