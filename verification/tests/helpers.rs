use bi_cli::beyond_identity::api::roles::types::Role;
use bi_cli::beyond_identity::commands::{
    deletion_plan, enrollment_targets, reviewed_deletion, sweep_deletion, unenrolled_heading,
    unenrolled_line, DeletionPlan, DeletionStep, IdentitySet,
};
use bi_cli::beyond_identity::groups::{delete_members_url, group_members_page, group_memberships_page};
use bi_cli::beyond_identity::helper::admin::{
    add_role_members_url, admin_identity_request, identities_url, management_api_server,
    super_admin_role,
};
use bi_cli::beyond_identity::helper::command::{DeleteAllIdentities, SendEnrollmentEmail};
use bi_cli::beyond_identity::helper::roles::{role_memberships_page, roles_page};
use bi_cli::beyond_identity::helper::sso_configs::{
    add_identities_url, bookmark_request, sanitize_label, sso_configs_url,
};
use bi_cli::beyond_identity::identities::{
    email_label, has_role, identities_page_url, identity_url, Identity, IdentityTraits,
};
use bi_cli::beyond_identity::resource_servers::{resource_servers_page, ResourceServer};
use bi_cli::beyond_identity::tenant::TenantConfig;
use bi_cli::common::error::BiError;

fn server(identifier: &str, id: &str) -> ResourceServer {
    ResourceServer {
        id: id.to_string(),
        realm_id: "r".to_string(),
        tenant_id: "t".to_string(),
        display_name: "d".to_string(),
        identifier: identifier.to_string(),
    }
}

fn role(name: &str, id: &str) -> Role {
    Role {
        id: id.to_string(),
        resource_server_id: "rs".to_string(),
        realm_id: "r".to_string(),
        tenant_id: "t".to_string(),
        display_name: name.to_string(),
        description: String::new(),
        create_time: String::new(),
        update_time: String::new(),
    }
}

#[test]
fn management_api_server_is_the_first_beyondidentity_one() {
    let servers = vec![server("custom", "a"), server("beyondidentity", "b"), server("beyondidentity", "c")];
    assert_eq!(management_api_server(&servers).unwrap(), 1);
    match management_api_server(&vec![server("custom", "a")]) {
        Err(BiError::StringError(m)) => {
            assert_eq!(m, "No beyondidentity resource server found in your realm")
        }
        other => panic!("unexpected {:?}", other),
    }
}

#[test]
fn super_admin_role_is_found_by_its_name() {
    let roles = vec![role("Admins", "a"), role("Super Administrators", "b")];
    assert_eq!(super_admin_role(&roles).unwrap(), 1);
    match super_admin_role(&vec![role("super administrators", "a")]) {
        Err(BiError::StringError(m)) => assert_eq!(
            m,
            "No Super Administrators role found in your Beyond Identity Management API resource server"
        ),
        other => panic!("unexpected {:?}", other),
    }
}

#[test]
fn admin_identity_and_urls() {
    let a = admin_identity_request("boss@example.com");
    assert_eq!(a.display_name, "boss@example.com");
    assert_eq!(a.username, "boss@example.com");
    assert_eq!(a.primary_email_address, "boss@example.com");
    assert_eq!(a.status, "active");
    assert_eq!(a.traits_type, "traits_v0");
    assert_eq!(identities_url("https://api", "t", "r"), "https://api/v1/tenants/t/realms/r/identities");
    assert_eq!(
        add_role_members_url("https://api", "t", "r", "rs1", "role1"),
        "https://api/v1/tenants/t/realms/r/resource-servers/rs1/roles/role1:addMembers"
    );
}

#[test]
fn deletion_without_review_follows_the_flags_in_order() {
    match deletion_plan(true, true, true, true) {
        DeletionPlan::Direct(v) => assert_eq!(
            v,
            vec![IdentitySet::All, IdentitySet::Unenrolled, IdentitySet::WithoutRole]
        ),
        _ => panic!("expected a direct deletion"),
    }
    match deletion_plan(false, true, false, true) {
        DeletionPlan::Direct(v) => assert_eq!(v, vec![IdentitySet::WithoutRole]),
        _ => panic!("expected a direct deletion"),
    }
}

#[test]
fn reviewed_deletion_lists_the_last_flag_given() {
    assert!(matches!(
        deletion_plan(true, false, false, false),
        DeletionPlan::Reviewed(Some(IdentitySet::All))
    ));
    assert!(matches!(
        deletion_plan(true, true, true, false),
        DeletionPlan::Reviewed(Some(IdentitySet::WithoutRole))
    ));
    assert!(matches!(deletion_plan(false, false, false, false), DeletionPlan::Reviewed(None)));
    let cmd = DeleteAllIdentities { all: false, norole: false, unenrolled: true, force: false };
    assert!(matches!(cmd.plan(), DeletionPlan::Reviewed(Some(IdentitySet::Unenrolled))));
}

#[test]
fn memberships_are_left_before_any_identity_is_deleted() {
    assert_eq!(
        reviewed_deletion(2, 1),
        vec![
            DeletionStep::LeaveGroups(0),
            DeletionStep::LeaveRoles(0, 0),
            DeletionStep::LeaveGroups(1),
            DeletionStep::LeaveRoles(1, 0),
            DeletionStep::Delete(0),
            DeletionStep::Delete(1),
        ]
    );
    assert!(reviewed_deletion(0, 3).is_empty());
    assert_eq!(
        reviewed_deletion(1, 0),
        vec![DeletionStep::LeaveGroups(0), DeletionStep::Delete(0)]
    );
}

#[test]
fn a_sweep_deletes_each_identity_after_its_memberships() {
    assert_eq!(
        sweep_deletion(4, 2),
        vec![
            DeletionStep::LeaveGroups(4),
            DeletionStep::LeaveRoles(4, 0),
            DeletionStep::LeaveRoles(4, 1),
            DeletionStep::Delete(4),
        ]
    );
}

#[test]
fn enrollment_targets_follow_the_flags() {
    assert_eq!(enrollment_targets(true, false, false), Some(IdentitySet::All));
    assert_eq!(enrollment_targets(true, true, false), Some(IdentitySet::Unenrolled));
    assert_eq!(enrollment_targets(true, true, true), Some(IdentitySet::GroupMembers));
    assert_eq!(enrollment_targets(false, false, false), None);
    let s = SendEnrollmentEmail { all: false, groups: true, unenrolled: true };
    assert_eq!(s.targets(), Some(IdentitySet::UnenrolledGroupMembers));
    let s = SendEnrollmentEmail { all: true, groups: false, unenrolled: false };
    assert_eq!(s.targets(), Some(IdentitySet::All));
}

fn identity(email: Option<&str>) -> Identity {
    Identity {
        id: "i1".to_string(),
        realm_id: "r".to_string(),
        tenant_id: "t".to_string(),
        display_name: "d".to_string(),
        create_time: String::new(),
        update_time: String::new(),
        traits: IdentityTraits {
            username: "u".to_string(),
            primary_email_address: email.map(|e| e.to_string()),
        },
    }
}

#[test]
fn unenrolled_review_lines() {
    assert_eq!(unenrolled_heading(0), "0 identities have not completed enrollment yet:");
    assert_eq!(unenrolled_heading(12), "12 identities have not completed enrollment yet:");
    assert_eq!(unenrolled_line(&identity(Some("a@b.c"))), "a@b.c - i1");
    assert_eq!(unenrolled_line(&identity(None)), "<no email provided> - i1");
    assert_eq!(email_label(&identity(None)), "<no email provided>");
}

#[test]
fn an_identity_holds_a_role_when_some_server_lists_one() {
    assert!(!has_role(&vec![]));
    assert!(!has_role(&vec![0, 0]));
    assert!(has_role(&vec![0, 2]));
}

fn tenant() -> TenantConfig {
    TenantConfig {
        tenant_id: "t".to_string(),
        realm_id: "r".to_string(),
        application_id: "a".to_string(),
        client_id: String::new(),
        client_secret: String::new(),
        open_id_configuration_url: String::new(),
        auth_base_url: "https://auth".to_string(),
        api_base_url: "https://api".to_string(),
    }
}

#[test]
fn paging_urls_of_the_helpers() {
    let realm = "https://api/v1/tenants/t/realms/r";
    assert_eq!(identities_page_url(&tenant(), None), format!("{}/identities?page_size=200", realm));
    assert_eq!(
        identities_page_url(&tenant(), Some("n")),
        format!("{}/identities?page_size=200&page_token=n", realm)
    );
    assert_eq!(identity_url(&tenant(), "i1"), format!("{}/identities/i1", realm));
    assert_eq!(
        resource_servers_page("https://api", "t", "r", None),
        format!("{}/resource-servers?page_size=100", realm)
    );
    assert_eq!(
        resource_servers_page("https://api", "t", "r", Some("n")),
        format!("{}/resource-servers?page_size=200&page_token=n", realm)
    );
    assert_eq!(
        group_memberships_page("https://api", "t", "r", "i1", None),
        format!("{}/identities/i1:listGroups", realm)
    );
    assert_eq!(
        group_memberships_page("https://api", "t", "r", "i1", Some("n")),
        format!("{}/identities/i1:listGroups?page_size=200&page_token=n", realm)
    );
    assert_eq!(delete_members_url("https://api", "t", "r", "g"), format!("{}/groups/g:deleteMembers", realm));
    assert_eq!(
        group_members_page("https://api", "t", "r", "g", Some("n")),
        format!("{}/groups/g:listMembers?page_token=n", realm)
    );
    assert_eq!(
        role_memberships_page("https://api", "t", "r", "i1", "rs", None),
        format!("{}/identities/i1:listRoles?resource_server_id=rs", realm)
    );
    assert_eq!(
        role_memberships_page("https://api", "t", "r", "i1", "rs", Some("n")),
        format!("{}/identities/i1:listRoles?page_size=200&page_token=n", realm)
    );
    assert_eq!(roles_page("https://api", "t", "r", "rs", None), format!("{}/resource-servers/rs/roles", realm));
    assert_eq!(
        roles_page("https://api", "t", "r", "rs", Some("n")),
        format!("{}/resource-servers/rs/roles?page_size=200&page_token=n", realm)
    );
    assert_eq!(sso_configs_url("https://api", "t", "r"), format!("{}/sso-configs", realm));
    assert_eq!(
        add_identities_url("https://api", "t", "r", "s"),
        format!("{}/sso-configs/s:addIdentities", realm)
    );
}

#[test]
fn labels_keep_letters_and_white_space() {
    assert_eq!(sanitize_label("  My App #1 (prod) "), Some("My App  prod".to_string()));
    assert_eq!(sanitize_label("123"), Some(String::new()));
    assert_eq!(sanitize_label("Émile"), Some("mile".to_string()));
}

#[test]
fn long_labels_are_cut_at_sixty_bytes() {
    let long = "a".repeat(70);
    assert_eq!(sanitize_label(&long), Some("a".repeat(60)));
    let exact = "b".repeat(60);
    assert_eq!(sanitize_label(&exact), Some(exact.clone()));
}

#[test]
fn a_cut_inside_a_wide_space_is_refused() {
    // 59 letters, then an ideographic space (three bytes), then more letters
    let label = format!("{}\u{3000}{}", "c".repeat(59), "d".repeat(5));
    assert_eq!(sanitize_label(&label), None);
    let fits = format!("{}\u{3000}{}", "c".repeat(57), "d".repeat(5));
    assert_eq!(sanitize_label(&fits), Some(format!("{}\u{3000}", "c".repeat(57))));
}

#[test]
fn bookmark_takes_the_sanitized_label() {
    let b = bookmark_request("Sales-Force!", "https://login".to_string(), None).unwrap();
    assert_eq!(b.display_name, "SalesForce");
    assert!(b.is_migrated);
    assert_eq!(b.payload_type, "bookmark");
    assert!(b.is_tile_visible);
    assert_eq!(b.login_link, "https://login");
    assert!(b.icon.is_none());
}
