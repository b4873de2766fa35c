//! The `realms` commands and the request each of them sends.
use vstd::prelude::*;
use crate::beyond_identity::api::common::call::{call_url_of, realm_root, tenant_root, with_filter, HttpMethod};
use crate::beyond_identity::api::common::url::{URLBuilderView, then_extended};
use crate::beyond_identity::api::common::call::ApiCall;
use crate::beyond_identity::api::common::filter::{checked_filter, Filter};
use crate::beyond_identity::api::realms::api::{
    create_realm_request, delete_realm_request, get_realm_request, list_realms_request,
    patch_realm_request, RealmsApi,
};
use crate::beyond_identity::api::realms::types::{CreateRealmRequest, PatchRealmRequest};
use crate::common::error::{BiError, BiErrorView};
use crate::copies::copy_opt_string;
use crate::weburl::opt_view;

verus! {

/// The `realms` commands.
pub enum RealmCommands {
    /// Create a new realm.
    Create(CreateRealmRequest),
    /// List realms.
    List(List),
    /// Get a realm.
    Get(Get),
    /// Update the realm.
    Patch(PatchRealmRequest),
    /// Delete a realm.
    Delete(Delete),
}

/// `realms list`: an optional SCIM filter and an optional number of realms.
pub struct List {
    pub filter: Option<String>,
    pub limit: Option<usize>,
}

/// `realms get`: the realm's ID.
pub struct Get {
    pub id: String,
}

/// `realms delete`: the realm's ID.
pub struct Delete {
    pub id: String,
}

impl List {
    /// The request: the listing of realms with the filter, checked as SCIM.
    pub fn call(&self) -> (r: Result<ApiCall, BiError>)
        ensures
            match checked_filter(opt_view(self.filter)) {
                Ok(f) => r matches Ok(c) && c@ == list_realms_request(f),
                Err(m) => r matches Err(e) && e@ == BiErrorView::InvalidFilter(m),
            },
    {
        match Filter::new(copy_opt_string(&self.filter)) {
            Ok(Some(f)) => Ok(RealmsApi::list_realms(Some(f.0.as_str()))),
            Ok(None) => Ok(RealmsApi::list_realms(None)),
            Err(e) => Err(e),
        }
    }
}

impl RealmCommands {
    /// Whether `r` is the outcome of `call` for this command.
    pub open spec fn call_result(&self, r: Result<ApiCall, BiError>) -> bool {
        match self {
            RealmCommands::Create(_) => r matches Ok(c) && c@ == create_realm_request(),
            RealmCommands::List(l) => match checked_filter(opt_view(l.filter)) {
                Ok(f) => r matches Ok(c) && c@ == list_realms_request(f),
                Err(m) => r matches Err(e) && e@ == BiErrorView::InvalidFilter(m),
            },
            RealmCommands::Get(g) => r matches Ok(c) && c@ == get_realm_request(g.id@),
            RealmCommands::Patch(_) => r matches Ok(c) && c@ == patch_realm_request(),
            RealmCommands::Delete(d) => r matches Ok(c) && c@ == delete_realm_request(d.id@),
        }
    }

    /// The request of the command; an error where a filter is not SCIM.
    pub fn call(&self) -> (r: Result<ApiCall, BiError>)
        ensures
            self.call_result(r),
    {
        match self {
            RealmCommands::Create(_) => Ok(RealmsApi::create_realm()),
            RealmCommands::List(l) => l.call(),
            RealmCommands::Get(g) => Ok(RealmsApi::get_realm(g.id.as_str())),
            RealmCommands::Patch(_) => Ok(RealmsApi::patch_realm()),
            RealmCommands::Delete(d) => Ok(RealmsApi::delete_realm(d.id.as_str())),
        }
    }
}

/// Each realm command sends the request of its kind: `create` posts to `<tenant>/realms`;
/// `list` reads it page by page with the filter it was given, where that filter is SCIM,
/// and fails with the parser's message otherwise; `get` and `delete` address the realm
/// whose ID was given, whichever realm is configured; `patch` changes the configured realm.
pub proof fn realm_commands_send_their_requests(
    cmd: &RealmCommands,
    b: URLBuilderView,
    r: Result<ApiCall, BiError>,
)
    requires
        cmd.call_result(r),
    ensures
        match cmd {
            RealmCommands::Create(_) => r matches Ok(c) && c@.method == HttpMethod::Post && call_url_of(b, c@) == then_extended(tenant_root(b), seq!["realms"@]) && !c@.paginated,
            RealmCommands::List(l) => match checked_filter(opt_view(l.filter)) {
                Ok(f) => r matches Ok(c) && c@.method == HttpMethod::Get && call_url_of(b, c@) == with_filter(then_extended(tenant_root(b), seq!["realms"@]), f) && c@.paginated,
                Err(m) => r matches Err(e) && e@ == BiErrorView::InvalidFilter(m),
            },
            RealmCommands::Get(g) => r matches Ok(c) && c@.method == HttpMethod::Get && call_url_of(b, c@) == then_extended(tenant_root(b), seq!["realms"@, g.id@]) && !c@.paginated,
            RealmCommands::Patch(_) => r matches Ok(c) && c@.method == HttpMethod::Patch && call_url_of(b, c@) == realm_root(b) && !c@.paginated,
            RealmCommands::Delete(d) => r matches Ok(c) && c@.method == HttpMethod::Delete && call_url_of(b, c@) == then_extended(tenant_root(b), seq!["realms"@, d.id@]) && !c@.paginated,
        },
{
}

} // verus!
