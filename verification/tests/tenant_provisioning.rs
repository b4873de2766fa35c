use bi_cli::beyond_identity::tenant::{
    applications_page_url, issuer_parts, issuer_parts_of_token, token_issuer_parts, management_api_application, provisioned_tenant,
    Application, ProtocolConfig,
};
use bi_cli::common::error::BiError;

#[test]
fn issuer_gives_tenant_realm_application_and_base_urls() {
    let issuer = "https://auth-us.beyondidentity.com/v1/tenants/t1/realms/r1/applications/a1";
    let p = issuer_parts(issuer).unwrap();
    assert_eq!(p.tenant_id, "t1");
    assert_eq!(p.realm_id, "r1");
    assert_eq!(p.application_id, "a1");
    assert_eq!(p.auth_base_url, "https://auth-us.beyondidentity.com");
    assert_eq!(p.api_base_url, "https://api-us.beyondidentity.com");
    assert_eq!(p.open_id_configuration_url, format!("{}/.well-known/openid-configuration", issuer));
    let t = provisioned_tenant(p, "cid".to_string(), "sec".to_string());
    assert_eq!(t.client_id, "cid");
    assert_eq!(t.client_secret, "sec");
    assert_eq!(t.api_base_url, "https://api-us.beyondidentity.com");
}

#[test]
fn every_auth_in_the_host_becomes_api() {
    let p = issuer_parts("https://auth.authority.example/v1/tenants/t/realms/r/applications/a").unwrap();
    assert_eq!(p.auth_base_url, "https://auth.authority.example");
    assert_eq!(p.api_base_url, "https://api.apiority.example");
}

fn message(r: Result<bi_cli::beyond_identity::tenant::IssuerParts, BiError>) -> String {
    match r {
        Err(BiError::StringError(m)) => m,
        Err(other) => panic!("unexpected error {:?}", other),
        Ok(_) => panic!("unexpected success"),
    }
}

#[test]
fn missing_segments_are_reported_in_order() {
    assert_eq!(message(issuer_parts("https://auth.example.com/v1/tenants")), "Invalid tenant ID");
    assert_eq!(message(issuer_parts("https://auth.example.com/v1/tenants/t1/realms")), "Invalid realm ID");
    assert_eq!(
        message(issuer_parts("https://auth.example.com/v1/tenants/t1/realms/r1/applications")),
        "Invalid application ID"
    );
}

#[test]
fn unparsable_issuer_is_an_invalid_url() {
    match issuer_parts("not a url") {
        Err(BiError::InvalidUrl(m)) => assert_eq!(m, "relative URL without a base"),
        other => panic!("unexpected {:?}", other.map(|p| p.tenant_id)),
    }
}

#[test]
fn issuer_without_host_is_refused() {
    assert_eq!(message(issuer_parts("unix:/v1/tenants/t1/realms/r1/applications/a1")), "Invalid URL host");
}

fn app(classification: &str, id: &str) -> Application {
    Application {
        id: id.to_string(),
        realm_id: "r".to_string(),
        tenant_id: "t".to_string(),
        display_name: "d".to_string(),
        is_managed: true,
        classification: classification.to_string(),
        protocol_config: ProtocolConfig { client_id: Some("c".to_string()), client_secret: None },
    }
}

#[test]
fn first_management_api_application_is_found() {
    let apps = vec![app("custom", "a"), app("management_api", "b"), app("management_api", "c")];
    assert_eq!(management_api_application(&apps), Some(1));
    assert_eq!(management_api_application(&vec![app("custom", "a")]), None);
    assert_eq!(management_api_application(&vec![]), None);
}

#[test]
fn applications_pages() {
    assert_eq!(
        applications_page_url("https://api", "t", "r", None),
        "https://api/v1/tenants/t/realms/r/applications"
    );
    assert_eq!(
        applications_page_url("https://api", "t", "r", Some("tok")),
        "https://api/v1/tenants/t/realms/r/applications?page_token=tok"
    );
}

#[test]
fn tokens_are_read_by_their_issuer() {
    let token = "eyJhbGciOiJSUzI1NiIsInR5cCI6IkpXVCJ9.eyJpc3MiOiJodHRwczovL2F1dGgtdXMuYmV5b25kaWRlbnRpdHkuY29tL3YxL3RlbmFudHMvdDEvcmVhbG1zL3IxL2FwcGxpY2F0aW9ucy9hMSIsImV4cCI6NDEwMjQ0NDgwMH0.c2ln";
    let p = token_issuer_parts(token).unwrap();
    assert_eq!(p.tenant_id, "t1");
    assert_eq!(p.realm_id, "r1");
    assert_eq!(p.application_id, "a1");
    assert_eq!(p.api_base_url, "https://api-us.beyondidentity.com");
    let no_issuer = "eyJhbGciOiJSUzI1NiIsInR5cCI6IkpXVCJ9.eyJzdWIiOiJ4IiwiZXhwIjo0MTAyNDQ0ODAwfQ.c2ln";
    assert_eq!(message(token_issuer_parts(no_issuer)), "Failed to decode JWT: missing field `iss`");
    assert!(message(token_issuer_parts("not a token")).starts_with("Failed to decode JWT: "));
    let expired = "eyJhbGciOiJSUzI1NiIsInR5cCI6IkpXVCJ9.eyJpc3MiOiJodHRwczovL2F1dGgtdXMuYmV5b25kaWRlbnRpdHkuY29tL3YxL3RlbmFudHMvdDEvcmVhbG1zL3IxL2FwcGxpY2F0aW9ucy9hMSIsImV4cCI6MTAwMH0.c2ln";
    assert_eq!(message(token_issuer_parts(expired)), "Failed to decode JWT: Error(ExpiredSignature)");
    let expired_without_issuer = "eyJhbGciOiJSUzI1NiIsInR5cCI6IkpXVCJ9.eyJzdWIiOiJ4IiwiZXhwIjoxMDAwfQ.c2ln";
    assert_eq!(
        message(token_issuer_parts(expired_without_issuer)),
        "Failed to decode JWT: missing field `iss`"
    );
    let without_expiry = "eyJhbGciOiJSUzI1NiIsInR5cCI6IkpXVCJ9.eyJpc3MiOiJodHRwczovL2F1dGgtdXMuYmV5b25kaWRlbnRpdHkuY29tL3YxL3RlbmFudHMvdDEvcmVhbG1zL3IxL2FwcGxpY2F0aW9ucy9hMSJ9.c2ln";
    assert_eq!(
        message(token_issuer_parts(without_expiry)),
        "Failed to decode JWT: Error(MissingRequiredClaim(\"exp\"))"
    );
}

#[test]
fn an_issuer_without_a_path_has_no_tenant() {
    assert_eq!(message(issuer_parts("foo://x")), "Invalid tenant ID");
}

#[test]
fn decoding_errors_are_reported() {
    assert_eq!(message(issuer_parts_of_token(Err("boom".to_string()), None)), "Failed to decode JWT: boom");
    assert_eq!(
        message(issuer_parts_of_token(Ok(Some("https://h/v1/tenants".to_string())), None)),
        "Invalid tenant ID"
    );
    assert_eq!(
        message(issuer_parts_of_token(Ok(None), Some("Error(ExpiredSignature)".to_string()))),
        "Failed to decode JWT: missing field `iss`"
    );
    assert_eq!(
        message(issuer_parts_of_token(
            Ok(Some("https://h/v1/tenants/t/realms/r/applications/a".to_string())),
            Some("Error(ExpiredSignature)".to_string())
        )),
        "Failed to decode JWT: Error(ExpiredSignature)"
    );
    let p = issuer_parts_of_token(
        Ok(Some("https://auth-us.beyondidentity.com/v1/tenants/t/realms/r/applications/a".to_string())),
        None,
    )
    .unwrap();
    assert_eq!(p.application_id, "a");
}
