//! Enrollment: which identities have a credential in the configured realm, how the
//! operator picks identities and a group, and the enrollment job that is sent.
use vstd::prelude::*;
use vstd::string::*;
use crate::beyond_identity::identities::Identity;
use crate::beyond_identity::realm_urls::{realm_path, realm_url_with};
use crate::text::{parse_unsigned, same_text, split_on, split_on_char, trim, trimmed};

verus! {

/// A page of an identity's credentials.
#[derive(Clone, Debug)]
pub struct CredentialResponse {
    pub credentials: Vec<Credential>,
    pub total_size: i32,
    pub next_page_token: Option<String>,
}

/// A credential (passkey) of an identity.
#[derive(Clone, Debug)]
pub struct Credential {
    pub id: String,
    pub tenant_id: String,
    pub realm_id: String,
}

/// An SSO configuration that delegates to an identity provider.
#[derive(Clone, Debug)]
pub struct SsoConfigIdpResponse {
    /// The ID of this SSO config.
    pub id: String,
    /// SSO config name for display purposes.
    pub display_name: String,
    /// The payload of the SSO config.
    pub payload: IdpPayload,
}

/// The payload of an SSO configuration of a generic OIDC identity provider.
#[derive(Clone, Debug)]
pub struct IdpPayload {
    pub generic_oidc_idp: GenericOidcIdp,
}

/// The identity provider behind an SSO configuration.
#[derive(Clone, Debug)]
pub struct GenericOidcIdp {
    pub identity_provider_id: String,
}

/// A page of identities.
#[derive(Clone, Debug)]
pub struct IdentityResponse {
    pub identities: Vec<Identity>,
    pub next_page_token: Option<String>,
}

/// An enrollment job as the API reports it, with the enrollment link where there is one.
#[derive(Debug)]
pub struct EnrollmentJobResponse {
    pub enrollment_job: EnrollmentJob,
    pub enrollment_job_link: Option<String>,
}

/// An enrollment job.
#[derive(Debug)]
pub struct EnrollmentJob {
    pub tenant_id: String,
    pub realm_id: String,
    pub identity_id: String,
    pub delivery_method: String,
    pub delivery_details: DeliveryDetails,
    pub verification_details: VerificationDetails,
}

/// How an enrollment job is delivered: the email template.
#[derive(Debug)]
pub struct DeliveryDetails {
    pub template: String,
}

/// How the enrolling identity proves who it is.
#[derive(Debug)]
pub struct VerificationDetails {
    pub magic_link: Option<MagicLink>,
    pub idp_authorization: Option<IdpAuthorization>,
}

/// Verification through the identity provider.
#[derive(Debug)]
pub struct IdpAuthorization {}

/// Verification by a link in the email.
#[derive(Debug)]
pub struct MagicLink {}

/// Whether `c` was issued in the given tenant and realm.
pub open spec fn issued_in(c: Credential, tenant_id: Seq<char>, realm_id: Seq<char>) -> bool {
    c.realm_id@ == realm_id && c.tenant_id@ == tenant_id
}

/// Whether an identity with the credentials `creds` has enrolled in the given tenant and
/// realm: some credential was issued there.
pub open spec fn enrolled_in(creds: Seq<Credential>, tenant_id: Seq<char>, realm_id: Seq<char>) -> bool {
    exists|j: int| 0 <= j < creds.len() && issued_in(#[trigger] creds[j], tenant_id, realm_id)
}

/// Whether an identity with the credentials `credentials` has enrolled in the given
/// tenant and realm.
pub fn is_enrolled(credentials: &Vec<Credential>, tenant_id: &str, realm_id: &str) -> (r: bool)
    ensures
        r == enrolled_in(credentials@, tenant_id@, realm_id@),
{
    let mut j: usize = 0;
    while j < credentials.len()
        invariant
            j <= credentials@.len(),
            forall|k: int| 0 <= k < j ==> !issued_in(#[trigger] credentials@[k], tenant_id@, realm_id@),
        decreases credentials@.len() - j,
    {
        if same_text(credentials[j].realm_id.as_str(), realm_id) && same_text(
            credentials[j].tenant_id.as_str(),
            tenant_id,
        ) {
            return true;
        }
        j += 1;
    }
    false
}

/// The page of a realm's identities with token `page_token` (the first without one):
/// `<realm>/identities[?page_token=<token>]`.
pub fn identities_page(
    api_base_url: &str,
    tenant_id: &str,
    realm_id: &str,
    page_token: Option<&str>,
) -> (r: String)
    ensures
        r@ == realm_path(api_base_url@, tenant_id@, realm_id@) + "/identities"@ + match page_token {
            Some(t) => "?page_token="@ + t@,
            None => seq![],
        },
{
    let mut u = realm_url_with(api_base_url, tenant_id, realm_id, "/identities");
    match page_token {
        Some(t) => {
            u.append("?page_token=");
            u.append(t);
        },
        None => {},
    }
    u
}

/// The page of an identity's credentials with token `page_token` (the first without one):
/// `<realm>/identities/<id>/credentials[?page_token=<token>]`.
pub fn credentials_page(
    api_base_url: &str,
    tenant_id: &str,
    realm_id: &str,
    identity_id: &str,
    page_token: Option<&str>,
) -> (r: String)
    ensures
        r@ == realm_path(api_base_url@, tenant_id@, realm_id@) + "/identities/"@ + identity_id@
            + "/credentials"@ + match page_token {
            Some(t) => "?page_token="@ + t@,
            None => seq![],
        },
{
    let mut u = realm_url_with(api_base_url, tenant_id, realm_id, "/identities/");
    u.append(identity_id);
    u.append("/credentials");
    match page_token {
        Some(t) => {
            u.append("?page_token=");
            u.append(t);
        },
        None => {},
    }
    u
}

/// The SSO configuration `id`: `<realm>/sso-configs/<id>`.
pub fn sso_config_url(api_base_url: &str, tenant_id: &str, realm_id: &str, id: &str) -> (r: String)
    ensures
        r@ == realm_path(api_base_url@, tenant_id@, realm_id@) + "/sso-configs/"@ + id@,
{
    let mut u = realm_url_with(api_base_url, tenant_id, realm_id, "/sso-configs/");
    u.append(id);
    u
}

/// Where an identity's enrollment jobs are created: `<realm>/identities/<id>/enrollment-jobs`.
pub fn enrollment_jobs_url(api_base_url: &str, tenant_id: &str, realm_id: &str, identity_id: &str) -> (r:
    String)
    ensures
        r@ == realm_path(api_base_url@, tenant_id@, realm_id@) + "/identities/"@ + identity_id@
            + "/enrollment-jobs"@,
{
    let mut u = realm_url_with(api_base_url, tenant_id, realm_id, "/identities/");
    u.append(identity_id);
    u.append("/enrollment-jobs");
    u
}

/// `str::parse::<usize>` of `s`.
pub open spec fn parse_index(s: Seq<char>) -> Option<nat> {
    parse_unsigned(s, usize::MAX as nat)
}

/// `s` parsed as a `usize` (`str::parse::<usize>`).
pub fn parse_usize(s: &str) -> (r: Option<usize>)
    ensures
        match r {
            Some(x) => parse_index(s@) == Some(x as nat),
            None => parse_index(s@) is None,
        },
{
    match crate::text::parse_u64(s) {
        Some(x) => if x <= usize::MAX as u64 {
            Some(x as usize)
        } else {
            None
        },
        None => None,
    }
}

/// The indices that the comma-separated pieces `pieces` name, each trimmed and read as a
/// number below `count`; `None` where some piece is not one.
pub open spec fn indices_of(pieces: Seq<Seq<char>>, count: nat) -> Option<Seq<nat>>
    decreases pieces.len(),
{
    if pieces.len() == 0 {
        Some(seq![])
    } else {
        match (indices_of(pieces.drop_last(), count), parse_index(trimmed(pieces.last()))) {
            (Some(prev), Some(i)) => if i < count {
                Some(prev.push(i))
            } else {
                None
            },
            _ => None,
        }
    }
}

/// The identities that the operator's answer `input` selects among `count` listed ones:
/// all of them for `all`; otherwise the comma-separated indices, each trimmed. `None` where
/// a piece is not the index of a listed identity.
pub open spec fn selection(input: Seq<char>, count: nat) -> Option<Seq<nat>> {
    let answer = trimmed(input);
    if answer == "all"@ {
        Some(Seq::new(count, |i: int| i as nat))
    } else {
        indices_of(split_on(answer, ','), count)
    }
}

/// The indices of the identities that the operator's answer `input` selects among `count`
/// listed ones (`all`, or comma-separated indices); `None` where a piece is not the index
/// of a listed identity.
pub fn select_indices(input: &str, count: usize) -> (r: Option<Vec<usize>>)
    ensures
        match r {
            Some(v) => selection(input@, count as nat) == Some(v@.map_values(|i: usize| i as nat)),
            None => selection(input@, count as nat) is None,
        },
{
    let answer = trim(input);
    if same_text(answer.as_str(), "all") {
        let mut all: Vec<usize> = Vec::new();
        let mut i: usize = 0;
        while i < count
            invariant
                i <= count,
                all@.map_values(|k: usize| k as nat) == Seq::new(i as nat, |k: int| k as nat),
            decreases count - i,
        {
            let ghost prev = all@;
            all.push(i);
            assert(all@.map_values(|k: usize| k as nat) =~= prev.map_values(|k: usize| k as nat).push(
                i as nat,
            ));
            assert(Seq::new((i + 1) as nat, |k: int| k as nat) =~= Seq::new(i as nat, |k: int| k as nat).push(
                i as nat,
            ));
            i += 1;
        }
        return Some(all);
    }
    let pieces = split_on_char(answer.as_str(), ',');
    let ghost ps = split_on(answer@, ',');
    assert(answer@ != "all"@);
    assert(selection(input@, count as nat) == indices_of(ps, count as nat));
    let mut out: Vec<usize> = Vec::new();
    let mut j: usize = 0;
    while j < pieces.len()
        invariant
            j <= pieces@.len(),
            crate::text::views(pieces@) == ps,
            selection(input@, count as nat) == indices_of(ps, count as nat),
            indices_of(ps.take(j as int), count as nat) == Some(out@.map_values(|i: usize| i as nat)),
        decreases pieces@.len() - j,
    {
        assert(ps.take(j + 1).drop_last() == ps.take(j as int));
        assert(ps.take(j + 1).last() == pieces@[j as int]@);
        let piece = trim(pieces[j].as_str());
        match parse_usize(piece.as_str()) {
            Some(i) => {
                if i >= count {
                    assert(indices_of(ps.take(j + 1), count as nat) is None);
                    proof {
                        lemma_indices_none_extends(ps, count as nat, j as int + 1);
                    }
                    return None;
                }
                out.push(i);
                assert(out@.map_values(|k: usize| k as nat) =~= indices_of(
                    ps.take(j as int),
                    count as nat,
                )->0.push(i as nat));
            },
            None => {
                assert(indices_of(ps.take(j + 1), count as nat) is None);
                proof {
                    lemma_indices_none_extends(ps, count as nat, j as int + 1);
                }
                return None;
            },
        }
        j += 1;
    }
    assert(ps.take(pieces@.len() as int) == ps);
    Some(out)
}

/// Once a prefix of the pieces names no listed identity, no longer prefix does.
proof fn lemma_indices_none_extends(ps: Seq<Seq<char>>, count: nat, k: int)
    requires
        0 <= k <= ps.len(),
        indices_of(ps.take(k), count) is None,
    ensures
        indices_of(ps, count) is None,
    decreases ps.len() - k,
{
    if k < ps.len() {
        assert(ps.take(k + 1).drop_last() == ps.take(k));
        lemma_indices_none_extends(ps, count, k + 1);
    } else {
        assert(ps.take(k) == ps);
    }
}

/// Every index that the pieces name is below `count`.
proof fn lemma_indices_below(pieces: Seq<Seq<char>>, count: nat)
    ensures
        indices_of(pieces, count) matches Some(v) ==> forall|i: int| 0 <= i < v.len() ==> #[trigger] v[i] < count,
    decreases pieces.len(),
{
    if pieces.len() > 0 {
        lemma_indices_below(pieces.drop_last(), count);
    }
}

/// An answer selects only identities that were listed: every selected index is below
/// the number of listed identities. The answer `all` selects each of them once, in order.
pub proof fn selection_is_of_listed(input: Seq<char>, count: nat)
    ensures
        selection(input, count) matches Some(v) ==> forall|i: int|
            0 <= i < v.len() ==> #[trigger] v[i] < count,
        trimmed(input) == "all"@ ==> selection(input, count) == Some(
            Seq::new(count, |i: int| i as nat),
        ),
{
    lemma_indices_below(split_on(trimmed(input), ','), count);
}

/// The group that the operator's answer `input` picks among `count` listed ones: the
/// trimmed answer read as an index below `count`; `None` asks again.
pub fn select_group_index(input: &str, count: usize) -> (r: Option<usize>)
    ensures
        match r {
            Some(i) => parse_index(trimmed(input@)) == Some(i as nat) && i < count,
            None => !(parse_index(trimmed(input@)) matches Some(i) && i < count),
        },
{
    let answer = trim(input);
    match parse_usize(answer.as_str()) {
        Some(i) => if i < count {
            Some(i)
        } else {
            None
        },
        None => None,
    }
}

/// Whether the operator's answer asks for enrollment through the identity provider: the
/// trimmed answer is `idp`.
pub fn wants_idp(input: &str) -> (r: bool)
    ensures
        r == (trimmed(input@) == "idp"@),
{
    let answer = trim(input);
    same_text(answer.as_str(), "idp")
}

/// How an enrolling identity is verified: by a link in the email, or through an identity
/// provider (its ID and display name).
#[derive(Debug)]
pub enum Verification {
    MagicLink,
    IdpAuthorization { identity_provider_id: String, identity_provider_display_name: String },
}

/// The enrollment job that is sent: delivered by email with the template of the platform
/// authenticator download link.
#[derive(Debug)]
pub struct EnrollmentJobRequest {
    pub delivery_method: String,
    pub template: String,
    pub verification: Verification,
}

/// The email template of enrollment jobs.
pub open spec fn enrollment_template() -> Seq<char> {
    "secure_workforce_credential_binding_with_platform_authenticator_download_link"@
}

/// The enrollment job for the operator's choice: through the identity provider of the
/// SSO configuration `sso_config` where one is given, by magic link otherwise.
pub fn enrollment_job_request(sso_config: Option<&SsoConfigIdpResponse>) -> (r: EnrollmentJobRequest)
    ensures
        r.delivery_method@ == "EMAIL"@,
        r.template@ == enrollment_template(),
        match sso_config {
            None => r.verification is MagicLink,
            Some(c) => r.verification matches Verification::IdpAuthorization {
                identity_provider_id,
                identity_provider_display_name,
            } && identity_provider_id@ == c.payload.generic_oidc_idp.identity_provider_id@
                && identity_provider_display_name@ == c.display_name@,
        },
{
    let verification = match sso_config {
        None => Verification::MagicLink,
        Some(c) => Verification::IdpAuthorization {
            identity_provider_id: c.payload.generic_oidc_idp.identity_provider_id.clone(),
            identity_provider_display_name: c.display_name.clone(),
        },
    };
    EnrollmentJobRequest {
        delivery_method: String::from_str("EMAIL"),
        template: String::from_str(
            "secure_workforce_credential_binding_with_platform_authenticator_download_link",
        ),
        verification,
    }
}

} // verus!
