use bzod::auth::{
    admin_login_bootstraps, admin_login_user, audit_event_metadata, audit_meta, is_bootstrap_allowed, login_csrf_ok,
    public_login_user, require_admin_role, session_user_id, tenant_user_to_admin_user, verify_admin_credentials,
};
use bzod::models::{ApiActor, TenantUser, User};

fn tenant(id: i64, status: &str, account_type: &str) -> TenantUser {
    TenantUser {
        id,
        username: "alice".to_string(),
        password_hash: "hash".to_string(),
        status: status.to_string(),
        account_type: account_type.to_string(),
        created_at: "2024-01-01T00:00:00Z".to_string(),
        metadata: None,
        tenant_id: Some("t-1".to_string()),
    }
}

#[test]
fn bootstrap_only_when_no_admin() {
    assert!(is_bootstrap_allowed(0, 0, 0));
    assert!(is_bootstrap_allowed(1, 0, 0));
    assert!(!is_bootstrap_allowed(2, 0, 0));
    assert!(!is_bootstrap_allowed(1, 1, 0));
    assert!(!is_bootstrap_allowed(1, 0, 1));
}

#[test]
fn admin_credentials_checked_in_order() {
    assert_eq!(verify_admin_credentials(&tenant(2, "disabled", "standard"), false), Err("account_disabled"));
    assert_eq!(verify_admin_credentials(&tenant(2, "active", "standard"), true), Err("insufficient_privileges"));
    assert_eq!(verify_admin_credentials(&tenant(2, "active", "admin"), false), Err("invalid_credentials"));
    assert_eq!(verify_admin_credentials(&tenant(2, "active", "admin"), true), Ok(()));
}

#[test]
fn tenant_becomes_admin_identity() {
    let u = tenant(-42, "active", "admin");
    let a = tenant_user_to_admin_user(u);
    assert_eq!(a.id, "-42");
    assert_eq!(a.username, "alice");
    assert_eq!(a.password_hash, "hash");
    assert_eq!(a.created_at, "2024-01-01T00:00:00Z");
}

#[test]
fn audit_meta_uses_debug_text() {
    assert_eq!(audit_meta("1.2.3.4", Some("curl/8")), "IP: \"1.2.3.4\", UA: Some(\"curl/8\")");
    assert_eq!(audit_meta("::1", None), "IP: \"::1\", UA: None");
    assert_eq!(audit_meta("a\"b", None), "IP: \"a\\\"b\", UA: None");
    assert_eq!(
        audit_event_metadata(Some("10.0.0.1"), Some("x")),
        "IP: Some(\"10.0.0.1\"), UA: Some(\"x\")"
    );
    assert_eq!(audit_event_metadata(None, None), "IP: None, UA: None");
}

#[test]
fn login_csrf_needs_matching_cookie() {
    assert!(login_csrf_ok(Some("tok"), "tok"));
    assert!(!login_csrf_ok(Some("tok"), "other"));
    assert!(!login_csrf_ok(Some(""), ""));
    assert!(!login_csrf_ok(None, "tok"));
}

#[test]
fn bootstrap_login_needs_all_three() {
    assert!(admin_login_bootstraps(Some((0, 0, 0)), "admin", "admin", true));
    assert!(!admin_login_bootstraps(Some((0, 0, 0)), "root", "admin", true));
    assert!(!admin_login_bootstraps(Some((0, 0, 0)), "admin", "admin", false));
    assert!(!admin_login_bootstraps(Some((1, 1, 0)), "admin", "admin", true));
    assert!(!admin_login_bootstraps(None, "admin", "admin", true));
}

#[test]
fn admin_login_only_for_active_admins() {
    let ok = admin_login_user(Some(tenant(7, "active", "admin")), true).unwrap();
    assert_eq!(ok.id, "7");
    assert!(admin_login_user(Some(tenant(7, "active", "standard")), true).is_none());
    assert!(admin_login_user(Some(tenant(7, "suspended", "admin")), true).is_none());
    assert!(admin_login_user(Some(tenant(7, "active", "admin")), false).is_none());
    assert!(admin_login_user(None, true).is_none());
}

#[test]
fn public_login_for_active_accounts() {
    assert_eq!(public_login_user(Some(tenant(3, "active", "standard")), true).map(|u| u.id), Some(3));
    assert!(public_login_user(Some(tenant(3, "pending", "standard")), true).is_none());
    assert!(public_login_user(Some(tenant(3, "active", "standard")), false).is_none());
}

#[test]
fn api_admin_role_required() {
    let admin = ApiActor::Admin(User {
        id: "1".to_string(),
        username: "root".to_string(),
        password_hash: String::new(),
        created_at: String::new(),
    });
    assert_eq!(require_admin_role(&admin).map(|u| u.username.clone()).ok(), Some("root".to_string()));
    let user = ApiActor::User(tenant(5, "active", "standard"));
    let rep = require_admin_role(&user).err().unwrap();
    assert_eq!(rep.status, 403);
    assert_eq!(rep.body, "Admin privileges required");
    assert!(rep.location.is_none());
}

#[test]
fn session_id_of_admin() {
    assert_eq!(session_user_id("12"), 12);
    assert_eq!(session_user_id("admin"), 0);
    assert_eq!(session_user_id("-3"), -3);
}
