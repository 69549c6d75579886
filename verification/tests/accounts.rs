use bzod::models::{ApiActor, TenantUser, User, UserQuotas};
use bzod::tokens::{api_key_created_location, issue_api_key, issue_user_token, token_hash, user_token_created_location};
use bzod::users::{
    api_token_quota_reached, create_user_failure_location, create_user_failure_reply, current_password_check,
    default_quotas, delete_user_guard, delete_user_reply, force_flag, get_user_detail_stats, needs_user_databases,
    normalize_account_type, normalize_user_status, normalize_username, password_long_enough, plan_api_new_user,
    plan_new_user, quota_percent, quota_update_detail, status_detail, tenant_actor, user_edit_location,
    user_response_of, user_responses, username_detail, users_error_location, users_success_location,
    CreateUserFailure, CreateUserForm, CreateUserRequest, UpdateUserQuotasRequest,
};

fn tenant(id: i64) -> TenantUser {
    TenantUser {
        id,
        username: format!("user{}", id),
        password_hash: "h".to_string(),
        status: "active".to_string(),
        account_type: "standard".to_string(),
        created_at: "2024-05-01T10:00:00Z".to_string(),
        metadata: Some("m".to_string()),
        tenant_id: None,
    }
}

fn form(username: &str, password: &str, account_type: &str, metadata: &str) -> CreateUserForm {
    CreateUserForm {
        username: username.to_string(),
        password: password.to_string(),
        account_type: account_type.to_string(),
        metadata: metadata.to_string(),
        csrf_token: "t".to_string(),
    }
}

#[test]
fn usernames_normalized_and_checked() {
    assert_eq!(normalize_username("  Alice_01 "), Ok("alice_01".to_string()));
    assert_eq!(normalize_username(" ab "), Err("Username must be at least 3 characters"));
    assert_eq!(normalize_username("é"), Err("Username must be at least 3 characters"));
    assert_eq!(normalize_username("éé"), Ok("éé".to_string()));
    assert_eq!(
        normalize_username("bob smith"),
        Err("Username must contain only alphanumeric characters, hyphens, or underscores")
    );
    assert_eq!(normalize_username("ÄNNE"), Ok("änne".to_string()));
}

#[test]
fn passwords_need_eight_bytes() {
    assert!(password_long_enough("12345678"));
    assert!(!password_long_enough("  1234567  "));
    assert!(password_long_enough("pässwör"));
}

#[test]
fn new_user_form_planned() {
    let p = plan_new_user(&form(" Carol ", "secret123", "  ", "  note ")).ok().unwrap();
    assert_eq!(p.username, "carol");
    assert_eq!(p.account_type, "standard");
    assert_eq!(p.metadata, Some("note".to_string()));
    let p = plan_new_user(&form("dave", "secret123", " service ", "")).ok().unwrap();
    assert_eq!(p.account_type, "service");
    assert_eq!(p.metadata, None);
    assert_eq!(plan_new_user(&form("dave", "short", "", "")).err(), Some("Password must be at least 8 characters"));
    assert_eq!(plan_new_user(&form("x", "short", "", "")).err(), Some("Username must be at least 3 characters"));
}

#[test]
fn api_new_user_planned() {
    let req = CreateUserRequest { username: " Erin ".to_string(), password: "x".to_string(), account_type: None, metadata: None };
    let p = plan_api_new_user(req).ok().unwrap();
    assert_eq!((p.username.as_str(), p.account_type.as_str()), ("erin", "standard"));
    let req = CreateUserRequest { username: "e r".to_string(), password: "x".to_string(), account_type: Some("admin".to_string()), metadata: None };
    let r = plan_api_new_user(req).err().unwrap();
    assert_eq!(r.status, 400);
    assert_eq!(r.body, "Username must contain only alphanumeric characters, hyphens, or underscores");
    assert!(needs_user_databases("standard"));
    assert!(!needs_user_databases("admin"));
}

#[test]
fn create_failures_reported() {
    let r = create_user_failure_reply(CreateUserFailure::UsernameTaken);
    assert_eq!((r.status, r.body.as_str()), (409, "Username already exists"));
    let r = create_user_failure_reply(CreateUserFailure::Storage("disk full".to_string()));
    assert_eq!((r.status, r.body.as_str()), (500, "disk full"));
    assert_eq!(create_user_failure_location(&CreateUserFailure::UsernameTaken), "/admin/users?error=Username already exists");
    assert_eq!(
        create_user_failure_location(&CreateUserFailure::Storage("x".to_string())),
        "/admin/users?error=Database error: x"
    );
    assert_eq!(users_error_location("Invalid user status"), "/admin/users?error=Invalid user status");
    assert_eq!(users_success_location("User created successfully"), "/admin/users?success=User created successfully");
}

#[test]
fn statuses_and_types() {
    assert_eq!(normalize_user_status(" Suspended "), Some("suspended".to_string()));
    assert_eq!(normalize_user_status("banned"), None);
    assert_eq!(normalize_account_type("ORGANIZATION"), Some("organization".to_string()));
    assert_eq!(normalize_account_type("guest"), None);
}

#[test]
fn quota_percentages() {
    assert_eq!(quota_percent(50, 100), 50);
    assert_eq!(quota_percent(1, 3), 33);
    assert_eq!(quota_percent(7, 0), 0);
    assert_eq!(quota_percent(5, -1), 0);
    assert_eq!(quota_percent(-1, 3), -33);
    assert_eq!(quota_percent(-7, 2), (-7i64 * 100) / 2);
    let s = get_user_detail_stats(None, 9, 12);
    assert_eq!((s.max_urls, s.max_landings, s.max_api_tokens, s.max_storage_mb), (100, 10, 5, 100));
    assert_eq!((s.url_pct, s.total_visits), (0, 12));
    let q = UserQuotas {
        user_id: 9, max_urls: 20, max_landings: 4, max_api_tokens: 0, max_storage_mb: 50,
        current_urls: 5, current_landings: 3, current_api_tokens: 2, current_storage_mb: 49,
    };
    let s = get_user_detail_stats(Some(q), 9, 0);
    assert_eq!((s.url_pct, s.landing_pct, s.token_pct, s.storage_pct), (25, 75, 0, 98));
    assert_eq!(default_quotas(3).max_api_tokens, 5);
}

#[test]
fn token_quota() {
    let mut q = default_quotas(1);
    assert!(!api_token_quota_reached(&Some(default_quotas(1))));
    q.current_api_tokens = 5;
    assert!(api_token_quota_reached(&Some(q)));
    assert!(!api_token_quota_reached(&None));
}

#[test]
fn audit_details() {
    let req = UpdateUserQuotasRequest { max_urls: 1, max_landings: -2, max_api_tokens: 3, max_storage_mb: 4 };
    assert_eq!(quota_update_detail(&req), "max_urls: 1, max_landings: -2, max_api_tokens: 3, max_storage_mb: 4");
    assert_eq!(username_detail("bob"), "Username: bob");
    assert_eq!(status_detail("disabled"), "New Status: disabled");
}

#[test]
fn deletion_guard_and_reply() {
    assert_eq!(delete_user_guard(1, false), Err("Deleting legacy_admin system account requires force flag".to_string()));
    assert_eq!(delete_user_guard(1, true), Ok(()));
    assert_eq!(delete_user_guard(2, false), Ok(()));
    assert!(force_flag(Some("true")));
    assert!(!force_flag(Some("TRUE")));
    assert!(!force_flag(None));
    assert_eq!(delete_user_reply(Ok(())).status, 200);
    assert_eq!(delete_user_reply(Err("User not found".to_string())).status, 404);
    let r = delete_user_reply(Err("Deleting legacy_admin system account requires force flag".to_string()));
    assert_eq!((r.status, r.body.as_str()), (400, "Deleting legacy_admin system account requires force flag"));
    let r = delete_user_reply(Err("io".to_string()));
    assert_eq!((r.status, r.body.as_str()), (500, "io"));
}

#[test]
fn responses_and_actors() {
    let r = user_response_of(tenant(4));
    assert_eq!((r.id, r.username.as_str(), r.metadata.as_deref()), (4, "user4", Some("m")));
    let all = user_responses(vec![tenant(1), tenant(2), tenant(3)]);
    assert_eq!(all.iter().map(|u| u.id).collect::<Vec<_>>(), vec![1, 2, 3]);
    let admin = ApiActor::Admin(User { id: "1".into(), username: "root".into(), password_hash: String::new(), created_at: String::new() });
    let e = tenant_actor(admin, "API tokens are for tenant users only").err().unwrap();
    assert_eq!((e.status, e.body.as_str()), (400, "API tokens are for tenant users only"));
    assert_eq!(tenant_actor(ApiActor::User(tenant(8)), "x").ok().map(|u| u.id), Some(8));
    let r = current_password_check(false).unwrap();
    assert_eq!((r.status, r.body.as_str()), (401, "Invalid current password"));
    assert!(current_password_check(true).is_none());
    assert_eq!(user_edit_location(12, false), "/admin/users/12/edit?error=Invalid CSRF token");
    assert_eq!(user_edit_location(12, true), "/admin/users/12?success=User updated successfully");
}

#[test]
fn tokens_hash_with_sha256() {
    assert_eq!(token_hash("abc"), "ba7816bf8f01cfea414140de5dae2223b00361a396177a9cb410ff61f20015ad");
    assert_eq!(token_hash(""), "e3b0c44298fc1c149afbf4c8996fb92427ae41e4649b934ca495991b7852b855");
    let t = issue_api_key("00ff");
    assert_eq!(t.secret, "bzo_00ff");
    assert_eq!(t.hash, token_hash("bzo_00ff"));
    assert_ne!(t.hash, "bzo_00ff");
    let u = issue_user_token("abcd");
    assert_eq!(u.secret, "key_abcd");
    assert_eq!(u.hash.len(), 64);
    assert!(u.hash.chars().all(|c| c.is_ascii_hexdigit() && !c.is_ascii_uppercase()));
    assert_eq!(user_token_created_location("key_1"), "/api-tokens?new_token=key_1&success=Token generated successfully");
    assert!(api_key_created_location("bzo_1").ends_with("Token value: bzo_1"));
}
