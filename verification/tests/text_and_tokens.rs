use bi_cli::beyond_identity::api::common::api_client::{checked_response, page_url, Pagination};
use bi_cli::beyond_identity::api::common::middleware::authorization::{
    auth_step, invalidates_stored_token, needs_new_token, new_token, stored_token_usable,
    token_expiry, token_url, AuthStep,
};
use bi_cli::beyond_identity::api::common::middleware::rate_limit::{
    RateLimitAction, RespectRateLimitMiddleware,
};
use bi_cli::beyond_identity::api::common::middlewares::rate_limit::RespectRateLimitMiddleware as OneRetry;
use bi_cli::beyond_identity::api::common::serialize::{request_error_output, status_text};
use bi_cli::beyond_identity::api_token::{stored_token, stored_token_valid, token_endpoint};
use bi_cli::beyond_identity::tenant::TenantConfig;
use bi_cli::common::database::models::{Realm, Tenant, Token};
use bi_cli::common::error::BiError;
use bi_cli::text::{parse_u64, replace_all, split_on_char, trim, u64_to_decimal};

#[test]
fn text_helpers_match_std() {
    assert_eq!(replace_all("auth.authx", "auth", "api"), "auth.authx".replace("auth", "api"));
    assert_eq!(replace_all("aaa", "aa", "b"), "aaa".replace("aa", "b"));
    assert_eq!(trim("\u{3000} x y \n"), "x y");
    assert_eq!(split_on_char("a,,b,", ','), vec!["a", "", "b", ""]);
    assert_eq!(parse_u64("+42"), Some(42));
    assert_eq!(parse_u64("18446744073709551616"), None);
    assert_eq!(u64_to_decimal(0), "0");
    assert_eq!(u64_to_decimal(18446744073709551615), "18446744073709551615");
}

#[test]
fn answers_outside_200_to_299_are_request_errors() {
    assert_eq!(checked_response(204, "x".to_string()).unwrap(), "x");
    match checked_response(404, "missing".to_string()) {
        Err(BiError::RequestError(404, m)) => assert_eq!(m, "missing"),
        other => panic!("unexpected {:?}", other),
    }
    assert!(checked_response(199, String::new()).is_err());
    assert!(checked_response(300, String::new()).is_err());
}

#[test]
fn pages_are_gathered_in_order() {
    let mut p: Pagination<u32> = Pagination::new("https://api/x?filter=a", Some(500));
    assert_eq!(p.next_url(), Some("https://api/x?filter=a&page_size=500".to_string()));
    p.record_page(vec![1, 2], Some("t2".to_string()));
    assert_eq!(p.next_url(), Some("https://api/x?filter=a&page_size=500&page_token=t2".to_string()));
    p.record_page(vec![3], None);
    assert_eq!(p.next_url(), None);
    assert_eq!(p.into_results(), vec![1, 2, 3]);
    assert_eq!(page_url("https://api/x", None, Some("t")), "https://api/x?page_token=t");
    assert_eq!(page_url("https://api/x", None, None), "https://api/x");
}

#[test]
fn rate_limited_answers_are_retried_with_backoff() {
    let m = RespectRateLimitMiddleware;
    assert_eq!(m.next_action(0, 200, None), (RateLimitAction::Return, 0));
    assert_eq!(m.next_action(3, 429, Some("7")), (RateLimitAction::Retry(7), 3));
    assert_eq!(m.next_action(0, 429, None), (RateLimitAction::Retry(1), 1));
    assert_eq!(m.next_action(4, 429, Some("soon")), (RateLimitAction::Retry(16), 5));
    assert_eq!(m.next_action(9, 429, None), (RateLimitAction::Retry(60), 10));
    assert_eq!(m.next_action(10, 429, None), (RateLimitAction::GiveUp, 10));
    let once = OneRetry;
    assert_eq!(once.retry_delay(429, Some("3")), Some(3));
    assert_eq!(once.retry_delay(429, None), None);
    assert_eq!(once.retry_delay(500, Some("3")), None);
}

fn tenant_and_realm() -> (Tenant, Realm) {
    (
        Tenant { id: "t1".to_string(), display_name: "T".to_string() },
        Realm {
            id: "r1".to_string(),
            tenant_id: "t1".to_string(),
            display_name: "R".to_string(),
            application_id: "app".to_string(),
            client_id: "cid".to_string(),
            client_secret: "sec".to_string(),
            api_base_url: "https://api.example.com".to_string(),
            auth_base_url: "https://auth.example.com".to_string(),
        },
    )
}

#[test]
fn tokens_are_reused_until_they_expire() {
    let (tenant, realm) = tenant_and_realm();
    let token = new_token("abc".to_string(), token_expiry(1000, 3600), &tenant, &realm);
    assert_eq!(token.expires_at, 4600);
    assert!(stored_token_usable(&token, 4599));
    assert!(!stored_token_usable(&token, 4600));
    let expired = Token { expires_at: -5, ..token.clone() };
    assert!(!stored_token_usable(&expired, 0));
    assert!(needs_new_token(403));
    assert!(!needs_new_token(401));
    assert!(invalidates_stored_token(&Some(tenant.clone()), &Some(realm.clone())));
    assert!(!invalidates_stored_token(&None, &Some(realm.clone())));
    assert_eq!(
        token_url(tenant, realm),
        Some("https://auth.example.com/v1/tenants/t1/realms/r1/applications/app/token".to_string())
    );
}

fn config() -> TenantConfig {
    TenantConfig {
        tenant_id: "t1".to_string(),
        realm_id: "r1".to_string(),
        application_id: "app".to_string(),
        client_id: String::new(),
        client_secret: String::new(),
        open_id_configuration_url: String::new(),
        auth_base_url: "https://auth".to_string(),
        api_base_url: "https://api".to_string(),
    }
}

#[test]
fn token_file_entry_is_reused_only_for_its_application() {
    let c = config();
    let t = stored_token("abc".to_string(), 100, 50, &c);
    assert!(stored_token_valid(&t, 149, &c));
    assert!(!stored_token_valid(&t, 150, &c));
    let mut other = c.clone();
    other.application_id = "other".to_string();
    assert!(!stored_token_valid(&t, 120, &other));
    assert_eq!(token_endpoint("https://auth", &c), "https://auth/v1/tenants/t1/realms/r1/applications/app/token");
}

#[test]
fn failed_requests_show_json_or_the_status() {
    assert_eq!(status_text(404), "404 Not Found");
    assert_eq!(status_text(599), "599 <unknown status code>");
    assert_eq!(request_error_output(404, "nope"), "Error (HTTP 404 Not Found): nope");
    assert_eq!(request_error_output(400, "{\"a\":1}"), "{\n  \"a\": 1\n}");
}

#[test]
fn a_refused_request_is_retried_once_with_a_new_token() {
    assert_eq!(auth_step(403, false), AuthStep::RefreshAndRetry);
    assert_eq!(auth_step(403, true), AuthStep::ReturnRefused);
    assert_eq!(auth_step(200, false), AuthStep::Return);
    assert_eq!(auth_step(401, true), AuthStep::Return);
}

#[test]
fn an_empty_pattern_is_replaced_at_every_position() {
    assert_eq!(replace_all("ab", "", "-"), "-a-b-");
    assert_eq!(replace_all("", "", "-"), "-");
    assert_eq!(replace_all("ab", "", "-"), "ab".replace("", "-"));
}
