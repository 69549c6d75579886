//! The cookies the web paths set and clear: the password-prompt unlock,
//! the login CSRF token and the two sessions.

use vstd::prelude::*;
use vstd::string::*;
use crate::redirect::gate_cookie_name;

verus! {

/// A cookie to add to the response jar. An attribute left `None` is not
/// written; `max_age_secs` 0 tells the browser to drop the cookie.
pub struct CookiePlan {
    pub name: String,
    pub value: String,
    pub path: String,
    pub secure: Option<bool>,
    pub http_only: Option<bool>,
    pub same_site_strict: bool,
    pub max_age_secs: i64,
}

/// Fifteen minutes: how long an unlocked protected link stays open.
pub const GATE_UNLOCK_SECS: i64 = 900;
/// Ten minutes: how long a login form's CSRF token lives.
pub const LOGIN_CSRF_SECS: i64 = 600;
/// Thirty days: how long a session cookie lives.
pub const SESSION_SECS: i64 = 2592000;

/// A cookie that carries a secret or a grant: readable by the server only,
/// never sent cross-site, marked secure as the deployment asks, and with a
/// lifetime.
pub open spec fn locked_down(c: CookiePlan, secure: bool) -> bool {
    &&& c.http_only == Some(true)
    &&& c.same_site_strict
    &&& c.secure == Some(secure)
    &&& c.max_age_secs > 0
}

/// A cookie that removes one set earlier: same name and path, empty value,
/// zero lifetime, no other attribute.
pub open spec fn clears(c: CookiePlan, name: Seq<char>, path: Seq<char>) -> bool {
    &&& c.name@ == name
    &&& c.path@ == path
    &&& c.value@ == Seq::<char>::empty()
    &&& c.max_age_secs == 0
    &&& c.secure is None
    &&& c.http_only is None
    &&& !c.same_site_strict
}

fn locked_cookie(name: String, value: &str, path: &str, secure: bool, max_age_secs: i64) -> (r: CookiePlan)
    requires
        max_age_secs > 0,
    ensures
        r.name@ == name@,
        r.value@ == value@,
        r.path@ == path@,
        r.max_age_secs == max_age_secs,
        locked_down(r, secure),
{
    CookiePlan {
        name,
        value: String::from_str(value),
        path: String::from_str(path),
        secure: Some(secure),
        http_only: Some(true),
        same_site_strict: true,
        max_age_secs,
    }
}

fn clearing_cookie(name: &str, path: &str) -> (r: CookiePlan)
    ensures
        clears(r, name@, path@),
{
    CookiePlan {
        name: String::from_str(name),
        value: String::new(),
        path: String::from_str(path),
        secure: None,
        http_only: None,
        same_site_strict: false,
        max_age_secs: 0,
    }
}

/// The cookie a correct password for a protected link sets: `bzod_gate_`
/// and the code, value `authorized`, for the whole site, fifteen minutes.
pub fn gate_unlock_cookie(code: &str, secure: bool) -> (r: CookiePlan)
    ensures
        r.name@ == "bzod_gate_"@ + code@,
        r.value@ == "authorized"@,
        r.path@ == "/"@,
        r.max_age_secs == GATE_UNLOCK_SECS,
        locked_down(r, secure),
{
    let name = gate_cookie_name(code);
    proof {
        reveal_strlit("authorized");
        reveal_strlit("/");
    }
    locked_cookie(name, "authorized", "/", secure, GATE_UNLOCK_SECS)
}

/// The CSRF cookie of the admin login form, scoped to `/admin/login`.
pub fn admin_login_csrf_cookie(token: &str, secure: bool) -> (r: CookiePlan)
    ensures
        r.name@ == "bzod_temp_csrf"@,
        r.value@ == token@,
        r.path@ == "/admin/login"@,
        r.max_age_secs == LOGIN_CSRF_SECS,
        locked_down(r, secure),
{
    locked_cookie(String::from_str("bzod_temp_csrf"), token, "/admin/login", secure, LOGIN_CSRF_SECS)
}

/// The CSRF cookie of the user login form, scoped to `/login`.
pub fn public_login_csrf_cookie(token: &str, secure: bool) -> (r: CookiePlan)
    ensures
        r.name@ == "bzod_temp_csrf"@,
        r.value@ == token@,
        r.path@ == "/login"@,
        r.max_age_secs == LOGIN_CSRF_SECS,
        locked_down(r, secure),
{
    locked_cookie(String::from_str("bzod_temp_csrf"), token, "/login", secure, LOGIN_CSRF_SECS)
}

/// The admin session cookie set at login: `bzod_session`, thirty days.
pub fn admin_session_cookie(session_token: &str, secure: bool) -> (r: CookiePlan)
    ensures
        r.name@ == "bzod_session"@,
        r.value@ == session_token@,
        r.path@ == "/"@,
        r.max_age_secs == SESSION_SECS,
        locked_down(r, secure),
{
    locked_cookie(String::from_str("bzod_session"), session_token, "/", secure, SESSION_SECS)
}

/// The user session cookie set at login: `bzod_user_session`, thirty days.
pub fn user_session_cookie(session_token: &str, secure: bool) -> (r: CookiePlan)
    ensures
        r.name@ == "bzod_user_session"@,
        r.value@ == session_token@,
        r.path@ == "/"@,
        r.max_age_secs == SESSION_SECS,
        locked_down(r, secure),
{
    locked_cookie(String::from_str("bzod_user_session"), session_token, "/", secure, SESSION_SECS)
}

/// Drops the admin login form's CSRF cookie once the login succeeded.
pub fn admin_login_csrf_clear() -> (r: CookiePlan)
    ensures
        clears(r, "bzod_temp_csrf"@, "/admin/login"@),
{
    clearing_cookie("bzod_temp_csrf", "/admin/login")
}

/// Drops the user login form's CSRF cookie once the login succeeded.
pub fn public_login_csrf_clear() -> (r: CookiePlan)
    ensures
        clears(r, "bzod_temp_csrf"@, "/login"@),
{
    clearing_cookie("bzod_temp_csrf", "/login")
}

/// The admin logout: drops `bzod_session`.
pub fn admin_logout_cookie() -> (r: CookiePlan)
    ensures
        clears(r, "bzod_session"@, "/"@),
{
    clearing_cookie("bzod_session", "/")
}

/// The user logout: drops `bzod_user_session`.
pub fn public_logout_cookie() -> (r: CookiePlan)
    ensures
        clears(r, "bzod_user_session"@, "/"@),
{
    clearing_cookie("bzod_user_session", "/")
}

} // verus!
