//! Identities of the configured realm, as the helper commands list and delete them.
use vstd::prelude::*;
use vstd::string::*;
use crate::beyond_identity::realm_urls::{realm_path, realm_url_with};
use crate::beyond_identity::commands::IdentitySet;
use crate::beyond_identity::tenant::TenantConfig;
use crate::beyond_identity::helper::enrollment::{enrolled_in, issued_in, Credential};

verus! {

/// An identity of a realm.
#[derive(Clone, Debug)]
pub struct Identity {
    pub id: String,
    pub realm_id: String,
    pub tenant_id: String,
    pub display_name: String,
    pub create_time: String,
    pub update_time: String,
    pub traits: IdentityTraits,
}

/// The traits of an identity that the helper commands read.
#[derive(Clone, Debug)]
pub struct IdentityTraits {
    pub username: String,
    pub primary_email_address: Option<String>,
}

impl IdentityTraits {
    /// A copy of the traits.
    pub fn duplicate(&self) -> (r: Self)
        ensures
            r == *self,
    {
        IdentityTraits {
            username: self.username.clone(),
            primary_email_address: match &self.primary_email_address {
                Some(e) => Some(e.clone()),
                None => None,
            },
        }
    }
}

impl Identity {
    /// A copy of the identity.
    pub fn duplicate(&self) -> (r: Self)
        ensures
            r == *self,
    {
        Identity {
            id: self.id.clone(),
            realm_id: self.realm_id.clone(),
            tenant_id: self.tenant_id.clone(),
            display_name: self.display_name.clone(),
            create_time: self.create_time.clone(),
            update_time: self.update_time.clone(),
            traits: self.traits.duplicate(),
        }
    }
}

/// How an identity is shown: its primary email address, or `<no email provided>`.
pub open spec fn email_or_placeholder(traits: IdentityTraits) -> Seq<char> {
    match traits.primary_email_address {
        Some(e) => e@,
        None => "<no email provided>"@,
    }
}

/// The identity's primary email address, or `<no email provided>` where it has none.
pub fn email_label(identity: &Identity) -> (r: String)
    ensures
        r@ == email_or_placeholder(identity.traits),
{
    match &identity.traits.primary_email_address {
        Some(e) => e.clone(),
        None => String::from_str("<no email provided>"),
    }
}

/// The page of identities with token `page_token` (the first page without one), 200 per
/// page: `<realm>/identities?page_size=200[&page_token=<token>]`.
pub fn identities_page_url(tenant_config: &TenantConfig, page_token: Option<&str>) -> (r: String)
    ensures
        r@ == realm_path(
            tenant_config.api_base_url@,
            tenant_config.tenant_id@,
            tenant_config.realm_id@,
        ) + "/identities?page_size=200"@ + match page_token {
            Some(t) => "&page_token="@ + t@,
            None => seq![],
        },
{
    let u = realm_url_with(
        tenant_config.api_base_url.as_str(),
        tenant_config.tenant_id.as_str(),
        tenant_config.realm_id.as_str(),
        "/identities?page_size=200",
    );
    match page_token {
        Some(t) => {
            let mut u = u;
            u.append("&page_token=");
            u.append(t);
            u
        },
        None => u,
    }
}

/// The identity `identity_id`: `<realm>/identities/<id>`.
pub fn identity_url(tenant_config: &TenantConfig, identity_id: &str) -> (r: String)
    ensures
        r@ == realm_path(
            tenant_config.api_base_url@,
            tenant_config.tenant_id@,
            tenant_config.realm_id@,
        ) + "/identities/"@ + identity_id@,
{
    let mut u = realm_url_with(
        tenant_config.api_base_url.as_str(),
        tenant_config.tenant_id.as_str(),
        tenant_config.realm_id.as_str(),
        "/identities/",
    );
    u.append(identity_id);
    u
}

/// Whether an identity holds a role: some resource server lists at least one role for it.
pub open spec fn holds_a_role(role_counts: Seq<usize>) -> bool {
    exists|j: int| 0 <= j < role_counts.len() && role_counts[j] > 0
}

/// Whether an identity with `role_counts[j]` roles in the `j`-th resource server holds a
/// role.
pub fn has_role(role_counts: &Vec<usize>) -> (r: bool)
    ensures
        r == holds_a_role(role_counts@),
{
    let mut has = false;
    let mut j: usize = 0;
    while j < role_counts.len()
        invariant
            j <= role_counts@.len(),
            has == exists|k: int| 0 <= k < j && role_counts@[k] > 0,
        decreases role_counts@.len() - j,
    {
        has = has || role_counts[j] > 0;
        j += 1;
    }
    has
}

/// The page that a sweep over the realm's identities fetches after a page that named
/// `next_page_token`; `None` ends the sweep.
pub fn next_identities_page(tenant_config: &TenantConfig, next_page_token: Option<&str>) -> (r:
    Option<String>)
    ensures
        match next_page_token {
            Some(t) => r matches Some(u) && u@ == realm_path(
                tenant_config.api_base_url@,
                tenant_config.tenant_id@,
                tenant_config.realm_id@,
            ) + "/identities?page_size=200"@ + "&page_token="@ + t@,
            None => r is None,
        },
{
    match next_page_token {
        Some(_) => Some(identities_page_url(tenant_config, next_page_token)),
        None => None,
    }
}

/// Whether a sweep that deletes the set `set` deletes an identity that has enrolled or not
/// and holds a role or not: every identity for `All`, those without a credential in the
/// realm for `Unenrolled`, those without a role for `WithoutRole`.
pub open spec fn swept(set: IdentitySet, enrolled: bool, holds_role: bool) -> bool {
    match set {
        IdentitySet::All => true,
        IdentitySet::Unenrolled => !enrolled,
        IdentitySet::WithoutRole => !holds_role,
        _ => false,
    }
}

/// Each sweep deletes exactly the identities of its set, judged by what the identity has:
/// `--all` deletes every identity; `--unenrolled` deletes an identity exactly when none of
/// its credentials was issued in the configured tenant and realm, whatever roles it holds;
/// `--norole` deletes an identity exactly when no resource server lists a role for it,
/// whatever its credentials. The sets of a group's members are never swept.
pub proof fn sweeps_delete_exactly_their_set(
    credentials: Seq<Credential>,
    tenant_id: Seq<char>,
    realm_id: Seq<char>,
    role_counts: Seq<usize>,
)
    ensures
        ({
            let enrolled = enrolled_in(credentials, tenant_id, realm_id);
            let holds = holds_a_role(role_counts);
            &&& swept(IdentitySet::All, enrolled, holds)
            &&& swept(IdentitySet::Unenrolled, enrolled, holds) <==> forall|j: int|
                0 <= j < credentials.len() ==> !issued_in(
                    #[trigger] credentials[j],
                    tenant_id,
                    realm_id,
                )
            &&& swept(IdentitySet::WithoutRole, enrolled, holds) <==> forall|j: int|
                0 <= j < role_counts.len() ==> #[trigger] role_counts[j] == 0
            &&& !swept(IdentitySet::GroupMembers, enrolled, holds)
            &&& !swept(IdentitySet::UnenrolledGroupMembers, enrolled, holds)
        }),
{
}

/// Whether the sweep that deletes `set` deletes an identity (see `swept`); the sets of a
/// group's members are not swept.
pub fn sweeps(set: IdentitySet, enrolled: bool, holds_role: bool) -> (r: bool)
    ensures
        r == swept(set, enrolled, holds_role),
{
    match set {
        IdentitySet::All => true,
        IdentitySet::Unenrolled => !enrolled,
        IdentitySet::WithoutRole => !holds_role,
        _ => false,
    }
}

} // verus!
