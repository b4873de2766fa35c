use bi_cli::beyond_identity::api::authenticator_configs::command::AuthenticatorConfigCommands;
use bi_cli::beyond_identity::api::authenticator_configs::types::{
    AuthenticationMethod, CreateAuthenticatorConfig, CreateAuthenticatorConfigDetails,
    CreateAuthenticatorConfigRequest, CreateEmbeddedAuthenticatorConfig, InvocationType,
    OptionalAuthenticatorConfigDetails, OptionalAuthenticatorConfigRequest,
    PatchAuthenticatorConfig, PatchAuthenticatorConfigDetails, PatchAuthenticatorConfigRequest,
    PatchPlatformAuthenticatorConfig,
};
use bi_cli::beyond_identity::api::authenticator_configs::types::{
    OptionalAuthenticatorConfig, OptionalPlatformAuthenticatorConfig,
};
use bi_cli::beyond_identity::api::authenticator_configs::api::AuthenticatorConfigsApi;
use bi_cli::beyond_identity::api::common::call::{call_url, HttpMethod, Scope};
use bi_cli::beyond_identity::api::common::command::BeyondIdentityApiCommands;
use bi_cli::beyond_identity::api::common::url::URLBuilder;
use bi_cli::beyond_identity::api::credentials::command::{CredentialCommands, List as CredentialList};
use bi_cli::beyond_identity::api::groups::command::{AddMembers, GroupCommands, List as GroupList};
use bi_cli::beyond_identity::api::groups::types::AddMembersRequest;
use bi_cli::beyond_identity::api::identities::command::{IdentityCommands, List as IdentityList};
use bi_cli::beyond_identity::api::realms::command::{Get as RealmGet, RealmCommands};
use bi_cli::beyond_identity::api::tenants::command::{Patch as TenantPatch, TenantCommands};
use bi_cli::beyond_identity::tenant::TenantConfig;
use bi_cli::common::error::BiError;

fn config() -> TenantConfig {
    TenantConfig {
        tenant_id: "t1".to_string(),
        realm_id: "r1".to_string(),
        application_id: "a".to_string(),
        client_id: String::new(),
        client_secret: String::new(),
        open_id_configuration_url: String::new(),
        auth_base_url: "https://auth.example.com".to_string(),
        api_base_url: "https://api.example.com".to_string(),
    }
}

fn url(call: &bi_cli::beyond_identity::api::common::call::ApiCall) -> String {
    call_url(URLBuilder::build(&config()), call).unwrap()
}

#[test]
fn identity_listing_reads_its_filter() {
    let list = IdentityList { filter: Some("traits.username eq alice".to_string()), limit: None };
    let call = list.call().unwrap();
    assert!(call.paginated);
    assert_eq!(
        url(&call),
        "https://api.example.com/v1/tenants/t1/realms/r1/identities?filter=traits.username+eq+%22alice%22"
    );
    let bad = IdentityList { filter: Some("nickname eq alice".to_string()), limit: None };
    match bad.call() {
        Err(BiError::InvalidFilter(m)) => assert_eq!(m, "Invalid field: nickname: VariantNotFound"),
        other => panic!("unexpected {:?}", other.map(|c| c.method)),
    }
    let blank = IdentityCommands::List(IdentityList { filter: Some("   ".to_string()), limit: None });
    assert_eq!(url(&blank.call().unwrap()), "https://api.example.com/v1/tenants/t1/realms/r1/identities");
}

#[test]
fn group_listing_checks_scim_filters() {
    let ok = GroupList { filter: Some("displayName eq \"admins\"".to_string()), limit: Some(5) };
    let call = ok.call().unwrap();
    assert_eq!(call.query, Some(("filter".to_string(), "displayName eq \"admins\"".to_string())));
    let bad = GroupCommands::List(GroupList { filter: Some("(".to_string()), limit: None });
    assert!(matches!(bad.call(), Err(BiError::InvalidFilter(_))));
    let add = GroupCommands::AddMembers(AddMembers {
        id: "g1".to_string(),
        request: AddMembersRequest { identity_ids: vec!["i1".to_string()] },
    });
    assert_eq!(
        url(&add.call().unwrap()),
        "https://api.example.com/v1/tenants/t1/realms/r1/groups/g1:addMembers"
    );
}

#[test]
fn credential_listing_checks_but_does_not_send_its_filter() {
    let list = CredentialList { identity_id: "i1".to_string(), filter: Some("state eq \"ACTIVE\"".to_string()), limit: None };
    let call = list.call().unwrap();
    assert!(call.query.is_none());
    assert_eq!(url(&call), "https://api.example.com/v1/tenants/t1/realms/r1/identities/i1/credentials");
    let cmd = BeyondIdentityApiCommands::Credentials(CredentialCommands::List(CredentialList {
        identity_id: "i1".to_string(),
        filter: Some("(".to_string()),
        limit: None,
    }));
    assert!(matches!(cmd.call(), Err(BiError::InvalidFilter(_))));
}

#[test]
fn realm_and_tenant_commands() {
    let get = BeyondIdentityApiCommands::Realms(RealmCommands::Get(RealmGet { id: "r7".to_string() }));
    let call = get.call().unwrap();
    assert!(matches!(call.scope, Scope::OtherRealm(ref id) if id == "r7"));
    assert_eq!(url(&call), "https://api.example.com/v1/tenants/t1/realms/r7");
    let patch = TenantPatch { display_name: "New".to_string() };
    assert_eq!(patch.request().tenant.display_name, Some("New".to_string()));
    let t = TenantCommands::Patch(patch).call();
    assert_eq!(t.method, HttpMethod::Patch);
    assert_eq!(url(&t), "https://api.example.com/v1/tenants/t1");
}

#[test]
fn patching_an_authenticator_config_names_it() {
    let patch = PatchAuthenticatorConfigRequest {
        authenticator_config: PatchAuthenticatorConfig {
            config: PatchAuthenticatorConfigDetails::Platform(PatchPlatformAuthenticatorConfig {
                id: "ac1".to_string(),
                display_name: Some("Platform".to_string()),
                trusted_origins: None,
            }),
        },
    };
    let body = OptionalAuthenticatorConfigRequest::from(&patch);
    assert_eq!(body.authenticator_config.id, Some("ac1".to_string()));
    assert_eq!(body.authenticator_config.display_name, Some("Platform".to_string()));
    assert!(matches!(body.authenticator_config.config, OptionalAuthenticatorConfigDetails::Platform(_)));
    let call = AuthenticatorConfigCommands::Patch(patch).call().unwrap();
    assert_eq!(call.method, HttpMethod::Patch);
    assert_eq!(url(&call), "https://api.example.com/v1/tenants/t1/realms/r1/authenticator-configs/ac1");
    let unnamed = OptionalAuthenticatorConfigRequest {
        authenticator_config: OptionalAuthenticatorConfig {
            id: None,
            realm_id: None,
            tenant_id: None,
            display_name: None,
            config: OptionalAuthenticatorConfigDetails::Platform(OptionalPlatformAuthenticatorConfig {
                trusted_origins: None,
            }),
        },
    };
    match AuthenticatorConfigsApi::patch_authenticator_config(&unnamed) {
        Err(BiError::StringError(m)) => assert_eq!(m, "ID required when patching an authenticator config"),
        other => panic!("unexpected {:?}", other.map(|c| c.method)),
    }
}

#[test]
fn creating_an_authenticator_config_carries_its_options() {
    let create = CreateAuthenticatorConfigRequest {
        authenticator_config: CreateAuthenticatorConfig {
            config: CreateAuthenticatorConfigDetails::Embedded(CreateEmbeddedAuthenticatorConfig {
                display_name: Some("Embedded".to_string()),
                invoke_url: "https://app".to_string(),
                invocation_type: InvocationType::Automatic,
                authentication_methods: vec![AuthenticationMethod::WebauthnPasskey],
                trusted_origins: Some(vec!["https://app".to_string()]),
            }),
        },
    };
    let body = OptionalAuthenticatorConfigRequest::from(&create);
    assert!(body.authenticator_config.id.is_none());
    match body.authenticator_config.config {
        OptionalAuthenticatorConfigDetails::Embedded(e) => {
            assert_eq!(e.invoke_url, Some("https://app".to_string()));
            assert_eq!(e.invocation_type, Some(InvocationType::Automatic));
            assert_eq!(e.authentication_methods, Some(vec![AuthenticationMethod::WebauthnPasskey]));
            assert_eq!(e.trusted_origins, Some(vec!["https://app".to_string()]));
        }
        _ => panic!("expected an embedded configuration"),
    }
    assert_eq!(
        url(&AuthenticatorConfigCommands::Create(create).call().unwrap()),
        "https://api.example.com/v1/tenants/t1/realms/r1/authenticator-configs"
    );
}
