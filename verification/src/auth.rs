//! Login, bootstrap and role decisions of the admin UI, user UI and API.

use vstd::prelude::*;
use vstd::string::*;
use crate::models::{ApiActor, Reply, TenantUser, User, opt_text};
use crate::text::{debug_str, debug_text, i64_decimal, int_decimal, str_eq};

verus! {

/// The admin and user login forms.
pub struct LoginForm {
    pub username: String,
    pub password: String,
    pub csrf_token: String,
}

/// Bootstrap is allowed only when the system has no real admin yet: at most
/// one user, no admin account and no live session.
pub open spec fn bootstrap_allowed(user_count: i64, admin_count: i64, active_session_count: i64) -> bool {
    user_count <= 1 && admin_count == 0 && active_session_count == 0
}

pub fn is_bootstrap_allowed(user_count: i64, admin_count: i64, active_session_count: i64) -> (r: bool)
    ensures
        r == bootstrap_allowed(user_count, admin_count, active_session_count),
{
    user_count <= 1 && admin_count == 0 && active_session_count == 0
}

/// Why an existing account may not log into the admin UI, checked in order:
/// not active, not an admin, wrong password.
pub open spec fn admin_rejection(user: TenantUser, password_verified: bool) -> Option<Seq<char>> {
    if user.status@ != "active"@ {
        Some("account_disabled"@)
    } else if user.account_type@ != "admin"@ {
        Some("insufficient_privileges"@)
    } else if !password_verified {
        Some("invalid_credentials"@)
    } else {
        None
    }
}

/// Verifies that an existing tenant user may log into the admin UI.
/// `password_verified` is whether the submitted password matches the user's
/// stored hash. The error is the structured rejection reason.
pub fn verify_admin_credentials(user: &TenantUser, password_verified: bool) -> (r: Result<(), &'static str>)
    ensures
        match admin_rejection(*user, password_verified) {
            None => r is Ok,
            Some(reason) => r matches Err(e) && e@ == reason,
        },
{
    if !str_eq(user.status.as_str(), "active") {
        return Err("account_disabled");
    }
    if !str_eq(user.account_type.as_str(), "admin") {
        return Err("insufficient_privileges");
    }
    if !password_verified {
        return Err("invalid_credentials");
    }
    Ok(())
}

/// The admin-session identity of a tenant user: the numeric id rendered in
/// decimal, the other fields carried over.
pub fn tenant_user_to_admin_user(u: TenantUser) -> (r: User)
    ensures
        r.id@ == int_decimal(u.id as int),
        r.username == u.username,
        r.password_hash == u.password_hash,
        r.created_at == u.created_at,
{
    User { id: i64_decimal(u.id), username: u.username, password_hash: u.password_hash, created_at: u.created_at }
}

/// `Debug` text of an optional string: `Some("...")` or `None`.
pub open spec fn debug_opt_text(o: Option<Seq<char>>) -> Seq<char> {
    match o {
        Some(s) => "Some("@ + debug_text(s) + ")"@,
        None => "None"@,
    }
}

pub(crate) fn debug_opt(o: Option<&str>) -> (r: String)
    ensures
        r@ == debug_opt_text(opt_text(o)),
{
    match o {
        Some(s) => {
            let mut out = String::from_str("Some(");
            let d = debug_str(s);
            out.append(d.as_str());
            out.append(")");
            out
        },
        None => String::from_str("None"),
    }
}

/// Audit metadata of a login event: `IP: "<ip>", UA: Some("<agent>")`, both
/// in `Debug` form (`UA: None` without a user agent).
pub fn audit_meta(ip: &str, user_agent: Option<&str>) -> (r: String)
    ensures
        r@ == "IP: "@ + debug_text(ip@) + ", UA: "@ + debug_opt_text(opt_text(user_agent)),
{
    let mut out = String::from_str("IP: ");
    let d = debug_str(ip);
    out.append(d.as_str());
    out.append(", UA: ");
    let u = debug_opt(user_agent);
    out.append(u.as_str());
    out
}

/// Audit metadata of an admin-UI action, where the address may be missing:
/// `IP: Some("<ip>"), UA: Some("<agent>")` in `Debug` form.
pub fn audit_event_metadata(ip: Option<&str>, user_agent: Option<&str>) -> (r: String)
    ensures
        r@ == "IP: "@ + debug_opt_text(opt_text(ip)) + ", UA: "@ + debug_opt_text(opt_text(user_agent)),
{
    let mut out = String::from_str("IP: ");
    let a = debug_opt(ip);
    out.append(a.as_str());
    out.append(", UA: ");
    let u = debug_opt(user_agent);
    out.append(u.as_str());
    out
}

/// The login forms accept a submission only when the temporary CSRF cookie is
/// present, non-empty and equal to the form's token.
pub fn login_csrf_ok(cookie: Option<&str>, form_token: &str) -> (r: bool)
    ensures
        r == match opt_text(cookie) {
            Some(c) => c.len() > 0 && c == form_token@,
            None => false,
        },
{
    match cookie {
        Some(c) => !c.is_empty() && str_eq(c, form_token),
        None => false,
    }
}

/// The admin login takes the bootstrap path when bootstrap is allowed (the
/// counts could be read and allow it), the username is the configured admin
/// name and the password matches the configured bootstrap digest.
pub open spec fn login_bootstraps(
    counts: Option<(i64, i64, i64)>,
    form_username: Seq<char>,
    admin_username: Seq<char>,
    bootstrap_password_ok: bool,
) -> bool {
    &&& match counts {
        Some((u, a, s)) => bootstrap_allowed(u, a, s),
        None => false,
    }
    &&& form_username == admin_username
    &&& bootstrap_password_ok
}

pub fn admin_login_bootstraps(
    counts: Option<(i64, i64, i64)>,
    form_username: &str,
    admin_username: &str,
    bootstrap_password_ok: bool,
) -> (r: bool)
    ensures
        r == login_bootstraps(counts, form_username@, admin_username@, bootstrap_password_ok),
{
    let allowed = match counts {
        Some((u, a, s)) => is_bootstrap_allowed(u, a, s),
        None => false,
    };
    allowed && str_eq(form_username, admin_username) && bootstrap_password_ok
}

/// The admin identity an existing account logs in as, if any.
pub fn admin_login_user(lookup: Option<TenantUser>, password_verified: bool) -> (r: Option<User>)
    ensures
        match lookup {
            Some(u) => if admin_rejection(u, password_verified) is None {
                r matches Some(a) && a.id@ == int_decimal(u.id as int) && a.username == u.username
                    && a.password_hash == u.password_hash && a.created_at == u.created_at
            } else {
                r is None
            },
            None => r is None,
        },
{
    match lookup {
        Some(u) => match verify_admin_credentials(&u, password_verified) {
            Ok(()) => Some(tenant_user_to_admin_user(u)),
            Err(_) => None,
        },
        None => None,
    }
}

/// The user login accepts an active account whose password matches.
pub fn public_login_user(lookup: Option<TenantUser>, password_verified: bool) -> (r: Option<TenantUser>)
    ensures
        r == match lookup {
            Some(u) => if u.status@ == "active"@ && password_verified { Some(u) } else { None },
            None => None,
        },
{
    match lookup {
        Some(u) => {
            if str_eq(u.status.as_str(), "active") && password_verified {
                Some(u)
            } else {
                None
            }
        },
        None => None,
    }
}

/// Only administrators pass; anyone else gets `403 Admin privileges required`.
pub fn require_admin_role(actor: &ApiActor) -> (r: Result<&User, Reply>)
    ensures
        match actor {
            ApiActor::Admin(a) => r == Ok::<&User, Reply>(a),
            ApiActor::User(_) => r matches Err(rep) && rep.status == 403 && rep.location is None
                && rep.body@ == "Admin privileges required"@,
        },
{
    match actor {
        ApiActor::Admin(a) => Ok(a),
        ApiActor::User(_) => Err(Reply { status: 403, location: None, body: String::from_str("Admin privileges required") }),
    }
}

/// Once an admin account exists, or a session is live, or more than one
/// account exists, no admin login bootstraps, whatever name and password it
/// gives.
pub proof fn law_bootstrap_needs_no_admin(
    user_count: i64,
    admin_count: i64,
    sessions: i64,
    form_username: Seq<char>,
    admin_username: Seq<char>,
    bootstrap_password_ok: bool,
)
    requires
        admin_count > 0 || sessions > 0 || user_count > 1,
    ensures
        !login_bootstraps(Some((user_count, admin_count, sessions)), form_username, admin_username, bootstrap_password_ok),
{
}

/// The account id an admin session is stored under: the admin id when it
/// reads as a number, else 0.
pub fn session_user_id(admin_id: &str) -> (r: i64)
    ensures
        r == match crate::text::parse_i64_text(admin_id@) {
            Some(n) => n,
            None => 0,
        },
{
    match crate::text::parse_i64(admin_id) {
        Some(n) => n,
        None => 0,
    }
}

/// A disabled or non-admin account never reaches the admin UI, whatever the
/// password.
pub proof fn law_admin_login_requires_active_admin(user: TenantUser, password_verified: bool)
    ensures
        admin_rejection(user, password_verified) is None ==> user.status@ == "active"@ && user.account_type@
            == "admin"@ && password_verified,
{
}

} // verus!
