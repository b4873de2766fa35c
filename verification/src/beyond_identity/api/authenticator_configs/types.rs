//! Authenticator configurations: as the API returns them, as commands create and patch
//! them, and the request body that both become.
use vstd::prelude::*;
use crate::copies::{copy_opt_string, copy_opt_strings, same_opt_strings};

verus! {

/// A page of authenticator configurations and the total count.
#[derive(Clone, Debug)]
pub struct AuthenticatorConfigs {
    pub authenticator_configs: Vec<AuthenticatorConfig>,
    pub total_size: usize,
}

/// An authenticator configuration wrapped as the API sends it.
#[derive(Clone, Debug)]
pub struct AuthenticatorConfigEnvelope {
    pub authenticator_config: AuthenticatorConfig,
}

/// Representation of an authenticator configuration.
#[derive(Clone, Debug)]
pub struct AuthenticatorConfig {
    /// A unique identifier for the authenticator config.
    pub id: String,
    /// A unique identifier for the realm associated with this authenticator config.
    pub realm_id: String,
    /// A unique identifier for the tenant associated with this authenticator config.
    pub tenant_id: String,
    /// A human-readable name for the authenticator configuration.
    pub display_name: Option<String>,
    /// Configuration details for the authenticator.
    pub config: AuthenticatorConfigDetails,
}

/// The details of an authenticator configuration, by type.
#[derive(Clone, Debug)]
pub enum AuthenticatorConfigDetails {
    /// Embedded SDK authenticator configuration.
    Embedded(EmbeddedAuthenticatorConfig),
    /// Hosted web authenticator configuration.
    HostedWeb(HostedWebAuthenticatorConfig),
    /// Platform authenticator configuration.
    Platform(PlatformAuthenticatorConfig),
}

/// Configuration options for the embedded SDK authenticator.
#[derive(Clone, Debug)]
pub struct EmbeddedAuthenticatorConfig {
    /// URL to invoke during the authentication flow.
    pub invoke_url: String,
    /// The method used to invoke the `invoke_url`.
    pub invocation_type: InvocationType,
    /// Set of authentication methods that are available to the authenticator.
    pub authentication_methods: Vec<AuthenticationMethod>,
    /// URLs allowed to make requests from a browser to the Beyond Identity API.
    pub trusted_origins: Option<Vec<String>>,
}

/// Configuration options for the hosted web experience authenticator.
#[derive(Clone, Debug)]
pub struct HostedWebAuthenticatorConfig {
    /// Set of authentication methods that are available to the authenticator.
    pub authentication_methods: Vec<AuthenticationMethod>,
    /// URLs allowed to make requests from a browser to the Beyond Identity API.
    pub trusted_origins: Option<Vec<String>>,
}

/// Configuration options for the platform authenticator.
#[derive(Clone, Debug)]
pub struct PlatformAuthenticatorConfig {
    /// URLs allowed to make requests from a browser to the Beyond Identity API.
    pub trusted_origins: Option<Vec<String>>,
}

/// The request body of a create or a patch.
#[derive(Clone, Debug)]
pub struct OptionalAuthenticatorConfigRequest {
    pub authenticator_config: OptionalAuthenticatorConfig,
}

/// An authenticator configuration of which every field may be left out.
#[derive(Clone, Debug)]
pub struct OptionalAuthenticatorConfig {
    pub id: Option<String>,
    pub realm_id: Option<String>,
    pub tenant_id: Option<String>,
    pub display_name: Option<String>,
    pub config: OptionalAuthenticatorConfigDetails,
}

/// The details of an authenticator configuration of which every field may be left out.
#[derive(Clone, Debug)]
pub enum OptionalAuthenticatorConfigDetails {
    Embedded(OptionalEmbeddedAuthenticatorConfig),
    HostedWeb(OptionalHostedWebAuthenticatorConfig),
    Platform(OptionalPlatformAuthenticatorConfig),
}

/// Embedded SDK authenticator options, each of which may be left out.
#[derive(Clone, Debug)]
pub struct OptionalEmbeddedAuthenticatorConfig {
    pub invoke_url: Option<String>,
    pub invocation_type: Option<InvocationType>,
    pub authentication_methods: Option<Vec<AuthenticationMethod>>,
    pub trusted_origins: Option<Vec<String>>,
}

/// Hosted web authenticator options, each of which may be left out.
#[derive(Clone, Debug)]
pub struct OptionalHostedWebAuthenticatorConfig {
    pub authentication_methods: Option<Vec<AuthenticationMethod>>,
    pub trusted_origins: Option<Vec<String>>,
}

/// Platform authenticator options, each of which may be left out.
#[derive(Clone, Debug)]
pub struct OptionalPlatformAuthenticatorConfig {
    pub trusted_origins: Option<Vec<String>>,
}

/// The arguments of `authenticator-configs create`.
#[derive(Clone, Debug)]
pub struct CreateAuthenticatorConfigRequest {
    pub authenticator_config: CreateAuthenticatorConfig,
}

/// The configuration to create.
#[derive(Clone, Debug)]
pub struct CreateAuthenticatorConfig {
    pub config: CreateAuthenticatorConfigDetails,
}

/// The type of the configuration to create, with its options.
#[derive(Clone, Debug)]
pub enum CreateAuthenticatorConfigDetails {
    Embedded(CreateEmbeddedAuthenticatorConfig),
    HostedWeb(CreateHostedWebAuthenticatorConfig),
    Platform(CreatePlatformAuthenticatorConfig),
}

/// Options of a new embedded SDK authenticator configuration.
#[derive(Clone, Debug)]
pub struct CreateEmbeddedAuthenticatorConfig {
    pub display_name: Option<String>,
    pub invoke_url: String,
    pub invocation_type: InvocationType,
    pub authentication_methods: Vec<AuthenticationMethod>,
    pub trusted_origins: Option<Vec<String>>,
}

/// Options of a new hosted web authenticator configuration.
#[derive(Clone, Debug)]
pub struct CreateHostedWebAuthenticatorConfig {
    pub display_name: Option<String>,
    pub authentication_methods: Vec<AuthenticationMethod>,
    pub trusted_origins: Option<Vec<String>>,
}

/// Options of a new platform authenticator configuration.
#[derive(Clone, Debug)]
pub struct CreatePlatformAuthenticatorConfig {
    pub display_name: Option<String>,
    pub trusted_origins: Option<Vec<String>>,
}

/// The authentication methods an authenticator can offer.
#[derive(Clone, Copy, Debug, PartialEq, Eq)]
pub enum AuthenticationMethod {
    WebauthnPasskey,
    SoftwarePasskey,
    EmailOneTimePassword,
}

/// How the `invoke_url` of an embedded authenticator is invoked.
#[derive(Clone, Copy, Debug, PartialEq, Eq)]
pub enum InvocationType {
    Automatic,
    Manual,
}

/// The arguments of `authenticator-configs patch`.
#[derive(Clone, Debug)]
pub struct PatchAuthenticatorConfigRequest {
    pub authenticator_config: PatchAuthenticatorConfig,
}

/// The configuration to patch.
#[derive(Clone, Debug)]
pub struct PatchAuthenticatorConfig {
    pub config: PatchAuthenticatorConfigDetails,
}

/// The type of the configuration to patch, with the options to change.
#[derive(Clone, Debug)]
pub enum PatchAuthenticatorConfigDetails {
    Embedded(PatchEmbeddedAuthenticatorConfig),
    HostedWeb(PatchHostedWebAuthenticatorConfig),
    Platform(PatchPlatformAuthenticatorConfig),
}

/// Changes to an embedded SDK authenticator configuration.
#[derive(Clone, Debug)]
pub struct PatchEmbeddedAuthenticatorConfig {
    pub id: String,
    pub display_name: Option<String>,
    pub invoke_url: Option<String>,
    pub invocation_type: Option<InvocationType>,
    pub authentication_methods: Option<Vec<AuthenticationMethod>>,
    pub trusted_origins: Option<Vec<String>>,
}

/// Changes to a hosted web authenticator configuration.
#[derive(Clone, Debug)]
pub struct PatchHostedWebAuthenticatorConfig {
    pub id: String,
    pub display_name: Option<String>,
    pub authentication_methods: Option<Vec<AuthenticationMethod>>,
    pub trusted_origins: Option<Vec<String>>,
}

/// Changes to a platform authenticator configuration.
#[derive(Clone, Debug)]
pub struct PatchPlatformAuthenticatorConfig {
    pub id: String,
    pub display_name: Option<String>,
    pub trusted_origins: Option<Vec<String>>,
}

/// A copy of a list of authentication methods.
fn copy_methods(v: &Vec<AuthenticationMethod>) -> (r: Vec<AuthenticationMethod>)
    ensures
        r@ == v@,
{
    let mut r: Vec<AuthenticationMethod> = Vec::new();
    let mut i: usize = 0;
    while i < v.len()
        invariant
            i <= v@.len(),
            r@ == v@.subrange(0, i as int),
        decreases v@.len() - i,
    {
        let m = v[i];
        r.push(m);
        i += 1;
        assert(r@ =~= v@.subrange(0, i as int));
    }
    assert(v@.subrange(0, v@.len() as int) =~= v@);
    r
}

/// Whether two optional lists of authentication methods hold the same methods.
pub open spec fn same_opt_methods(
    a: Option<Vec<AuthenticationMethod>>,
    b: Option<Vec<AuthenticationMethod>>,
) -> bool {
    match (a, b) {
        (None, None) => true,
        (Some(x), Some(y)) => x@ == y@,
        _ => false,
    }
}

fn copy_opt_methods(o: &Option<Vec<AuthenticationMethod>>) -> (r: Option<
    Vec<AuthenticationMethod>,
>)
    ensures
        same_opt_methods(r, *o),
{
    match o {
        Some(v) => Some(copy_methods(v)),
        None => None,
    }
}

/// `out` is the request body for creating `req`: no identifiers; the display name, the
/// type and its options as given, every one of them present.
pub open spec fn body_of_create(
    req: CreateAuthenticatorConfigRequest,
    out: OptionalAuthenticatorConfigRequest,
) -> bool {
    let o = out.authenticator_config;
    &&& o.id is None
    &&& o.realm_id is None
    &&& o.tenant_id is None
    &&& match (req.authenticator_config.config, o.config) {
        (
            CreateAuthenticatorConfigDetails::Embedded(c),
            OptionalAuthenticatorConfigDetails::Embedded(e),
        ) => {
            &&& o.display_name == c.display_name
            &&& e.invoke_url == Some(c.invoke_url)
            &&& e.invocation_type == Some(c.invocation_type)
            &&& e.authentication_methods matches Some(m) && m@ == c.authentication_methods@
            &&& same_opt_strings(e.trusted_origins, c.trusted_origins)
        },
        (
            CreateAuthenticatorConfigDetails::HostedWeb(c),
            OptionalAuthenticatorConfigDetails::HostedWeb(e),
        ) => {
            &&& o.display_name == c.display_name
            &&& e.authentication_methods matches Some(m) && m@ == c.authentication_methods@
            &&& same_opt_strings(e.trusted_origins, c.trusted_origins)
        },
        (
            CreateAuthenticatorConfigDetails::Platform(c),
            OptionalAuthenticatorConfigDetails::Platform(e),
        ) => {
            &&& o.display_name == c.display_name
            &&& same_opt_strings(e.trusted_origins, c.trusted_origins)
        },
        _ => false,
    }
}

/// `out` is the request body for patching `req`: the ID of the configuration to patch;
/// no realm or tenant; the display name, the type and the options as given, each one
/// present only where given.
pub open spec fn body_of_patch(
    req: PatchAuthenticatorConfigRequest,
    out: OptionalAuthenticatorConfigRequest,
) -> bool {
    let o = out.authenticator_config;
    &&& o.realm_id is None
    &&& o.tenant_id is None
    &&& match (req.authenticator_config.config, o.config) {
        (
            PatchAuthenticatorConfigDetails::Embedded(c),
            OptionalAuthenticatorConfigDetails::Embedded(e),
        ) => {
            &&& o.id == Some(c.id)
            &&& o.display_name == c.display_name
            &&& e.invoke_url == c.invoke_url
            &&& e.invocation_type == c.invocation_type
            &&& same_opt_methods(e.authentication_methods, c.authentication_methods)
            &&& same_opt_strings(e.trusted_origins, c.trusted_origins)
        },
        (
            PatchAuthenticatorConfigDetails::HostedWeb(c),
            OptionalAuthenticatorConfigDetails::HostedWeb(e),
        ) => {
            &&& o.id == Some(c.id)
            &&& o.display_name == c.display_name
            &&& same_opt_methods(e.authentication_methods, c.authentication_methods)
            &&& same_opt_strings(e.trusted_origins, c.trusted_origins)
        },
        (
            PatchAuthenticatorConfigDetails::Platform(c),
            OptionalAuthenticatorConfigDetails::Platform(e),
        ) => {
            &&& o.id == Some(c.id)
            &&& o.display_name == c.display_name
            &&& same_opt_strings(e.trusted_origins, c.trusted_origins)
        },
        _ => false,
    }
}

impl<'a> From<&'a CreateAuthenticatorConfigRequest> for OptionalAuthenticatorConfigRequest {
    fn from(request: &'a CreateAuthenticatorConfigRequest) -> (r: Self)
        ensures
            body_of_create(*request, r),
    {
        let authenticator_config = match &request.authenticator_config.config {
            CreateAuthenticatorConfigDetails::Embedded(cfg) => OptionalAuthenticatorConfig {
                id: None,
                realm_id: None,
                tenant_id: None,
                display_name: copy_opt_string(&cfg.display_name),
                config: OptionalAuthenticatorConfigDetails::Embedded(
                    OptionalEmbeddedAuthenticatorConfig {
                        invoke_url: Some(cfg.invoke_url.clone()),
                        invocation_type: Some(cfg.invocation_type),
                        authentication_methods: Some(copy_methods(&cfg.authentication_methods)),
                        trusted_origins: copy_opt_strings(&cfg.trusted_origins),
                    },
                ),
            },
            CreateAuthenticatorConfigDetails::HostedWeb(cfg) => OptionalAuthenticatorConfig {
                id: None,
                realm_id: None,
                tenant_id: None,
                display_name: copy_opt_string(&cfg.display_name),
                config: OptionalAuthenticatorConfigDetails::HostedWeb(
                    OptionalHostedWebAuthenticatorConfig {
                        authentication_methods: Some(copy_methods(&cfg.authentication_methods)),
                        trusted_origins: copy_opt_strings(&cfg.trusted_origins),
                    },
                ),
            },
            CreateAuthenticatorConfigDetails::Platform(cfg) => OptionalAuthenticatorConfig {
                id: None,
                realm_id: None,
                tenant_id: None,
                display_name: copy_opt_string(&cfg.display_name),
                config: OptionalAuthenticatorConfigDetails::Platform(
                    OptionalPlatformAuthenticatorConfig {
                        trusted_origins: copy_opt_strings(&cfg.trusted_origins),
                    },
                ),
            },
        };
        OptionalAuthenticatorConfigRequest { authenticator_config }
    }
}

impl<'a> vstd::std_specs::convert::FromSpecImpl<&'a CreateAuthenticatorConfigRequest> for
    OptionalAuthenticatorConfigRequest {
    /// The lists in the body are copies of the request's, equal element by element but not
    /// the same values: what a call gives is `body_of_create`, stated by `from` itself.
    open spec fn obeys_from_spec() -> bool {
        false
    }

    open spec fn from_spec(v: &'a CreateAuthenticatorConfigRequest) -> Self {
        arbitrary()
    }
}

impl<'a> From<&'a PatchAuthenticatorConfigRequest> for OptionalAuthenticatorConfigRequest {
    fn from(request: &'a PatchAuthenticatorConfigRequest) -> (r: Self)
        ensures
            body_of_patch(*request, r),
    {
        let authenticator_config = match &request.authenticator_config.config {
            PatchAuthenticatorConfigDetails::Embedded(cfg) => OptionalAuthenticatorConfig {
                id: Some(cfg.id.clone()),
                realm_id: None,
                tenant_id: None,
                display_name: copy_opt_string(&cfg.display_name),
                config: OptionalAuthenticatorConfigDetails::Embedded(
                    OptionalEmbeddedAuthenticatorConfig {
                        invoke_url: copy_opt_string(&cfg.invoke_url),
                        invocation_type: cfg.invocation_type,
                        authentication_methods: copy_opt_methods(&cfg.authentication_methods),
                        trusted_origins: copy_opt_strings(&cfg.trusted_origins),
                    },
                ),
            },
            PatchAuthenticatorConfigDetails::HostedWeb(cfg) => OptionalAuthenticatorConfig {
                id: Some(cfg.id.clone()),
                realm_id: None,
                tenant_id: None,
                display_name: copy_opt_string(&cfg.display_name),
                config: OptionalAuthenticatorConfigDetails::HostedWeb(
                    OptionalHostedWebAuthenticatorConfig {
                        authentication_methods: copy_opt_methods(&cfg.authentication_methods),
                        trusted_origins: copy_opt_strings(&cfg.trusted_origins),
                    },
                ),
            },
            PatchAuthenticatorConfigDetails::Platform(cfg) => OptionalAuthenticatorConfig {
                id: Some(cfg.id.clone()),
                realm_id: None,
                tenant_id: None,
                display_name: copy_opt_string(&cfg.display_name),
                config: OptionalAuthenticatorConfigDetails::Platform(
                    OptionalPlatformAuthenticatorConfig {
                        trusted_origins: copy_opt_strings(&cfg.trusted_origins),
                    },
                ),
            },
        };
        OptionalAuthenticatorConfigRequest { authenticator_config }
    }
}

impl<'a> vstd::std_specs::convert::FromSpecImpl<&'a PatchAuthenticatorConfigRequest> for
    OptionalAuthenticatorConfigRequest {
    /// As for a create request: what a call gives is `body_of_patch`, stated by `from`.
    open spec fn obeys_from_spec() -> bool {
        false
    }

    open spec fn from_spec(v: &'a PatchAuthenticatorConfigRequest) -> Self {
        arbitrary()
    }
}

} // verus!
