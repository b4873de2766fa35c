use bi_cli::beyond_identity::api::common::call::{call_url, HttpMethod};
use bi_cli::beyond_identity::api::common::url::URLBuilder;
use bi_cli::beyond_identity::api::groups::api::GroupsApi;
use bi_cli::beyond_identity::api::identities::api::IdentitiesApi;
use bi_cli::beyond_identity::api::realms::api::RealmsApi;
use bi_cli::beyond_identity::api::tenants::api::TenantsApi;
use bi_cli::beyond_identity::api::credentials::api::CredentialsApi;
use bi_cli::beyond_identity::api::credential_binding_jobs::api::CredentialBindingJobsApi;
use bi_cli::beyond_identity::api::authenticator_configs::api::AuthenticatorConfigsApi;
use bi_cli::beyond_identity::tenant::TenantConfig;
use bi_cli::common::error::BiError;

fn config() -> TenantConfig {
    TenantConfig {
        tenant_id: "t1".to_string(),
        realm_id: "r1".to_string(),
        application_id: "app1".to_string(),
        client_id: "cid".to_string(),
        client_secret: "secret".to_string(),
        open_id_configuration_url: "https://auth-us.beyondidentity.com/.well-known".to_string(),
        auth_base_url: "https://auth-us.beyondidentity.com".to_string(),
        api_base_url: "https://api-us.beyondidentity.com".to_string(),
    }
}

#[test]
fn builds_realm_resource_url() {
    let url = URLBuilder::build(&config())
        .api()
        .add_tenant()
        .add_realm()
        .add_path(vec!["identities", "id1"])
        .to_string()
        .unwrap();
    assert_eq!(url, "https://api-us.beyondidentity.com/v1/tenants/t1/realms/r1/identities/id1");
}

#[test]
fn auth_base_is_used_for_auth_urls() {
    let url = URLBuilder::build(&config())
        .auth()
        .add_tenant()
        .add_realm_with_override("other".to_string())
        .to_string()
        .unwrap();
    assert_eq!(url, "https://auth-us.beyondidentity.com/v1/tenants/t1/realms/other");
}

#[test]
fn custom_method_joins_the_last_segment() {
    let url = URLBuilder::build(&config())
        .api()
        .add_tenant()
        .add_realm()
        .add_path(vec!["groups", "g1"])
        .add_custom_method("addMembers")
        .to_string()
        .unwrap();
    assert_eq!(url, "https://api-us.beyondidentity.com/v1/tenants/t1/realms/r1/groups/g1:addMembers");
}

#[test]
fn custom_method_keeps_earlier_segments_as_they_are() {
    let url = URLBuilder::build(&config())
        .api()
        .add_path(vec!["a b", "c%d"])
        .add_custom_method("x")
        .to_string()
        .unwrap();
    assert_eq!(url, "https://api-us.beyondidentity.com/a%20b/c%25d:x");
}

#[test]
fn custom_method_stays_in_the_last_segment() {
    let url = URLBuilder::build(&config())
        .api()
        .add_path(vec!["g1"])
        .add_custom_method("a/b c%")
        .to_string()
        .unwrap();
    assert_eq!(url, "https://api-us.beyondidentity.com/g1:a%2Fb%20c%25");
}

#[test]
fn custom_method_without_segments_is_its_own_segment() {
    let url = URLBuilder::build(&config()).api().add_custom_method("batch").to_string().unwrap();
    assert_eq!(url, "https://api-us.beyondidentity.com/:batch");
}

#[test]
fn query_parameter_only_when_given() {
    let with = URLBuilder::build(&config())
        .api()
        .add_path(vec!["x"])
        .add_query_param("filter", Some("display_name eq \"a b\""))
        .to_string()
        .unwrap();
    assert_eq!(with, "https://api-us.beyondidentity.com/x?filter=display_name+eq+%22a+b%22");
    let without = URLBuilder::build(&config())
        .api()
        .add_path(vec!["x"])
        .add_query_param("filter", None)
        .to_string()
        .unwrap();
    assert_eq!(without, "https://api-us.beyondidentity.com/x");
}

#[test]
fn to_string_without_base_is_an_error() {
    match URLBuilder::build(&config()).to_string() {
        Err(BiError::StringError(m)) => {
            assert_eq!(m, "URL not initialized. Call api() or auth() first.")
        }
        other => panic!("unexpected {:?}", other),
    }
}

#[test]
fn unusable_base_is_refused() {
    let mut c = config();
    c.api_base_url = "not a url".to_string();
    assert!(!URLBuilder::base_usable("not a url"));
    assert!(URLBuilder::build(&c).api_checked().is_none());
    assert!(call_url(URLBuilder::build(&c), &GroupsApi::create_group()).is_none());
    assert!(!URLBuilder::base_usable("mailto:someone@example.com"));
    assert!(URLBuilder::base_usable("https://api-us.beyondidentity.com"));
}

fn url_of(call: bi_cli::beyond_identity::api::common::call::ApiCall) -> String {
    call_url(URLBuilder::build(&config()), &call).unwrap()
}

#[test]
fn group_requests() {
    let base = "https://api-us.beyondidentity.com/v1/tenants/t1/realms/r1";
    assert_eq!(url_of(GroupsApi::create_group()), format!("{}/groups", base));
    assert_eq!(GroupsApi::create_group().method, HttpMethod::Post);
    assert_eq!(url_of(GroupsApi::add_members("g1")), format!("{}/groups/g1:addMembers", base));
    assert_eq!(url_of(GroupsApi::delete_members("g1")), format!("{}/groups/g1:deleteMembers", base));
    assert_eq!(url_of(GroupsApi::list_members("g1")), format!("{}/groups/g1:listMembers", base));
    assert!(GroupsApi::list_members("g1").paginated);
    assert_eq!(
        url_of(GroupsApi::list_roles("g1", "rs1")),
        format!("{}/groups/g1:listRoles?resource_server_id=rs1", base)
    );
    assert_eq!(GroupsApi::delete_group("g1").method, HttpMethod::Delete);
    assert_eq!(url_of(GroupsApi::patch_group("g1")), format!("{}/groups/g1", base));
    assert_eq!(GroupsApi::patch_group("g1").method, HttpMethod::Patch);
    assert_eq!(url_of(GroupsApi::list_groups(None)), format!("{}/groups", base));
}

#[test]
fn identity_requests() {
    let base = "https://api-us.beyondidentity.com/v1/tenants/t1/realms/r1";
    assert_eq!(url_of(IdentitiesApi::get_identity("i1")), format!("{}/identities/i1", base));
    assert_eq!(url_of(IdentitiesApi::list_groups("i1")), format!("{}/identities/i1:listGroups", base));
    assert_eq!(
        url_of(IdentitiesApi::list_roles("i1", "rs1")),
        format!("{}/identities/i1:listRoles?resource_server_id=rs1", base)
    );
    assert_eq!(
        url_of(IdentitiesApi::list_identities(Some("x"))),
        format!("{}/identities?filter=x", base)
    );
}

#[test]
fn realm_and_tenant_requests() {
    let tenant = "https://api-us.beyondidentity.com/v1/tenants/t1";
    assert_eq!(url_of(TenantsApi::get_tenant()), tenant);
    assert_eq!(TenantsApi::patch_tenant().method, HttpMethod::Patch);
    assert_eq!(url_of(RealmsApi::create_realm()), format!("{}/realms", tenant));
    assert_eq!(url_of(RealmsApi::get_realm("r9")), format!("{}/realms/r9", tenant));
    assert_eq!(url_of(RealmsApi::patch_realm()), format!("{}/realms/r1", tenant));
    assert_eq!(RealmsApi::delete_realm("r9").method, HttpMethod::Delete);
}

#[test]
fn credential_requests_use_kebab_case_and_revoke() {
    let base = "https://api-us.beyondidentity.com/v1/tenants/t1/realms/r1";
    assert_eq!(
        url_of(CredentialsApi::revoke_credential("c1", "i1")),
        format!("{}/identities/i1/credentials/c1:revoke", base)
    );
    assert_eq!(
        url_of(CredentialBindingJobsApi::get_credential_binding_job("j1", "i1")),
        format!("{}/identities/i1/credential-binding-jobs/j1", base)
    );
    assert_eq!(
        url_of(AuthenticatorConfigsApi::get_authenticator_config("a1")),
        format!("{}/authenticator-configs/a1", base)
    );
}

#[test]
fn built_urls_parse_back_to_themselves() {
    let url = URLBuilder::build(&config())
        .api()
        .add_tenant()
        .add_path(vec!["a b", "c/d"])
        .add_custom_method("run now")
        .add_query_param("q", Some("x&y"))
        .to_string()
        .unwrap();
    assert_eq!(
        url,
        "https://api-us.beyondidentity.com/v1/tenants/t1/a%20b/c%2Fd:run%20now?q=x%26y"
    );
    assert_eq!(url::Url::parse(&url).unwrap().as_str(), url);
}

#[test]
fn overriding_with_the_own_realm_is_adding_the_realm() {
    let own = URLBuilder::build(&config())
        .api()
        .add_tenant()
        .add_realm_with_override("r1".to_string())
        .to_string()
        .unwrap();
    let added = URLBuilder::build(&config()).api().add_tenant().add_realm().to_string().unwrap();
    assert_eq!(own, added);
    assert_eq!(added, "https://api-us.beyondidentity.com/v1/tenants/t1/realms/r1");
}

#[test]
fn a_base_that_cannot_take_segments_still_takes_a_query() {
    let mut tc = config();
    tc.api_base_url = "mailto:a@b.c".to_string();
    assert!(!URLBuilder::base_usable("mailto:a@b.c"));
    let b = URLBuilder::build(&tc).api();
    assert!(b.has_url());
    assert_eq!(b.add_query_param("x", Some("1")).to_string().unwrap(), "mailto:a@b.c?x=1");
}
