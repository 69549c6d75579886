use bzod::cookies::{
    admin_login_csrf_clear, admin_login_csrf_cookie, admin_logout_cookie, admin_session_cookie, gate_unlock_cookie,
    public_login_csrf_clear, public_login_csrf_cookie, public_logout_cookie, user_session_cookie, CookiePlan,
};

fn assert_locked(c: &CookiePlan, secure: bool) {
    assert_eq!(c.http_only, Some(true));
    assert!(c.same_site_strict);
    assert_eq!(c.secure, Some(secure));
    assert!(c.max_age_secs > 0);
}

fn assert_clears(c: &CookiePlan, name: &str, path: &str) {
    assert_eq!(c.name, name);
    assert_eq!(c.path, path);
    assert_eq!(c.value, "");
    assert_eq!(c.max_age_secs, 0);
    assert_eq!(c.secure, None);
    assert_eq!(c.http_only, None);
    assert!(!c.same_site_strict);
}

#[test]
fn gate_cookie_unlocks_one_code_for_fifteen_minutes() {
    let c = gate_unlock_cookie("abc123", true);
    assert_eq!(c.name, "bzod_gate_abc123");
    assert_eq!(c.value, "authorized");
    assert_eq!(c.path, "/");
    assert_eq!(c.max_age_secs, 15 * 60);
    assert_locked(&c, true);
    let insecure = gate_unlock_cookie("x", false);
    assert_locked(&insecure, false);
}

#[test]
fn login_csrf_cookies_are_scoped_to_their_form() {
    let a = admin_login_csrf_cookie("tok", true);
    assert_eq!(a.name, "bzod_temp_csrf");
    assert_eq!(a.value, "tok");
    assert_eq!(a.path, "/admin/login");
    assert_eq!(a.max_age_secs, 10 * 60);
    assert_locked(&a, true);
    let p = public_login_csrf_cookie("tok2", false);
    assert_eq!(p.path, "/login");
    assert_eq!(p.value, "tok2");
    assert_locked(&p, false);
}

#[test]
fn session_cookies_last_thirty_days() {
    let a = admin_session_cookie("s1", true);
    assert_eq!(a.name, "bzod_session");
    assert_eq!(a.value, "s1");
    assert_eq!(a.path, "/");
    assert_eq!(a.max_age_secs, 30 * 24 * 60 * 60);
    assert_locked(&a, true);
    let u = user_session_cookie("s2", false);
    assert_eq!(u.name, "bzod_user_session");
    assert_eq!(u.value, "s2");
    assert_eq!(u.max_age_secs, 30 * 24 * 60 * 60);
    assert_locked(&u, false);
}

#[test]
fn clearing_cookies_match_what_was_set() {
    assert_clears(&admin_login_csrf_clear(), "bzod_temp_csrf", "/admin/login");
    assert_clears(&public_login_csrf_clear(), "bzod_temp_csrf", "/login");
    assert_clears(&admin_logout_cookie(), "bzod_session", "/");
    assert_clears(&public_logout_cookie(), "bzod_user_session", "/");
    assert_eq!(admin_logout_cookie().name, admin_session_cookie("t", true).name);
    assert_eq!(public_logout_cookie().name, user_session_cookie("t", true).name);
}
