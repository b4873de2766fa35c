use bi_cli::beyond_identity::helper::enrollment::{
    credentials_page, enrollment_job_request, enrollment_jobs_url, identities_page,
    is_enrolled, parse_usize, select_group_index, select_indices, sso_config_url, wants_idp,
    Credential, GenericOidcIdp, IdpPayload, SsoConfigIdpResponse, Verification,
};

fn cred(t: &str, r: &str) -> Credential {
    Credential { id: "c".to_string(), tenant_id: t.to_string(), realm_id: r.to_string() }
}

#[test]
fn enrolled_only_with_a_credential_of_the_realm() {
    assert!(!is_enrolled(&vec![], "t1", "r1"));
    assert!(!is_enrolled(&vec![cred("t1", "r2"), cred("t2", "r1")], "t1", "r1"));
    assert!(is_enrolled(&vec![cred("t1", "r2"), cred("t1", "r1")], "t1", "r1"));
}

#[test]
fn all_selects_every_listed_identity() {
    assert_eq!(select_indices("all", 3), Some(vec![0, 1, 2]));
    assert_eq!(select_indices("  all\n", 2), Some(vec![0, 1]));
    assert_eq!(select_indices("all", 0), Some(vec![]));
}

#[test]
fn comma_separated_indices_are_trimmed() {
    assert_eq!(select_indices("0, 2", 3), Some(vec![0, 2]));
    assert_eq!(select_indices(" 1 ", 3), Some(vec![1]));
    assert_eq!(select_indices("2,2,+0", 3), Some(vec![2, 2, 0]));
}

#[test]
fn a_piece_that_names_no_listed_identity_refuses_the_selection() {
    assert_eq!(select_indices("3", 3), None);
    assert_eq!(select_indices("0,x", 3), None);
    assert_eq!(select_indices("", 3), None);
    assert_eq!(select_indices("1,", 3), None);
    assert_eq!(select_indices("-1", 3), None);
    assert_eq!(select_indices("ALL", 3), None);
}

#[test]
fn usize_parsing_matches_std() {
    for s in ["0", "+7", "18446744073709551615", "18446744073709551616", "", "+", "1 ", "0x1", "-0"] {
        assert_eq!(parse_usize(s), s.parse::<usize>().ok(), "{:?}", s);
    }
}

#[test]
fn group_choice_asks_again_when_out_of_range() {
    assert_eq!(select_group_index(" 1\n", 2), Some(1));
    assert_eq!(select_group_index("2", 2), None);
    assert_eq!(select_group_index("one", 2), None);
}

#[test]
fn idp_is_chosen_by_its_name_only() {
    assert!(wants_idp(" idp \n"));
    assert!(!wants_idp("magic_link"));
    assert!(!wants_idp("IDP"));
}

#[test]
fn enrollment_job_by_magic_link_or_identity_provider() {
    let m = enrollment_job_request(None);
    assert_eq!(m.delivery_method, "EMAIL");
    assert_eq!(
        m.template,
        "secure_workforce_credential_binding_with_platform_authenticator_download_link"
    );
    assert!(matches!(m.verification, Verification::MagicLink));
    let sso = SsoConfigIdpResponse {
        id: "s1".to_string(),
        display_name: "Okta".to_string(),
        payload: IdpPayload {
            generic_oidc_idp: GenericOidcIdp { identity_provider_id: "idp1".to_string() },
        },
    };
    match enrollment_job_request(Some(&sso)).verification {
        Verification::IdpAuthorization { identity_provider_id, identity_provider_display_name } => {
            assert_eq!(identity_provider_id, "idp1");
            assert_eq!(identity_provider_display_name, "Okta");
        }
        _ => panic!("expected the identity provider"),
    }
}

#[test]
fn enrollment_urls() {
    assert_eq!(identities_page("https://api", "t", "r", None), "https://api/v1/tenants/t/realms/r/identities");
    assert_eq!(
        identities_page("https://api", "t", "r", Some("p2")),
        "https://api/v1/tenants/t/realms/r/identities?page_token=p2"
    );
    assert_eq!(
        credentials_page("https://api", "t", "r", "i1", Some("p")),
        "https://api/v1/tenants/t/realms/r/identities/i1/credentials?page_token=p"
    );
    assert_eq!(sso_config_url("https://api", "t", "r", "s"), "https://api/v1/tenants/t/realms/r/sso-configs/s");
    assert_eq!(
        enrollment_jobs_url("https://api", "t", "r", "i1"),
        "https://api/v1/tenants/t/realms/r/identities/i1/enrollment-jobs"
    );
}
