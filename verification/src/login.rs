//! The admin login flow: from the submitted form and what storage answered
//! to the response, the session to store and the audit events to write.

use vstd::prelude::*;
use vstd::string::*;
use crate::auth::{
    admin_login_bootstraps, admin_rejection, verify_admin_credentials, audit_meta, debug_opt_text, login_bootstraps,
    tenant_user_to_admin_user,
};
use crate::cookies::{admin_login_csrf_clear, admin_session_cookie, clears, locked_down, CookiePlan, SESSION_SECS};
use crate::models::{audit_is, audit_plan, opt_text, AuditPlan, TenantUser, User};
use crate::text::{debug_text, i64_decimal, int_decimal};

verus! {

/// What provisioning the bootstrap admin gave: the password could not be
/// hashed, the account could not be stored, or the stored account.
pub enum Provision {
    HashFailed,
    StoreFailed,
    Created(TenantUser),
}

/// The session row a login stores: the fresh token as id, the account id,
/// and its lifetime in days (the expiry is that long after now).
pub struct SessionPlan {
    pub id: String,
    pub user_id: i64,
    pub lifetime_days: i64,
}

/// How an admin login ends.
pub enum LoginOutcome {
    /// A redirect with nothing stored and nothing audited.
    Redirect { location: String },
    /// Wrong name or password (or a refused account): one `LOGIN_FAILED`
    /// audit and a redirect back to the form.
    Failed { audit: AuditPlan, location: String },
    /// Logged in: the session to store, the audit events, the cookies and the
    /// dashboard.
    LoggedIn {
        user: User,
        provisioned: Option<AuditPlan>,
        session: SessionPlan,
        audit: AuditPlan,
        session_cookie: CookiePlan,
        clear_csrf: CookiePlan,
        location: String,
    },
}

/// The audit metadata of a login request.
pub open spec fn login_meta(ip: Seq<char>, user_agent: Option<Seq<char>>) -> Seq<char> {
    "IP: "@ + debug_text(ip) + ", UA: "@ + debug_opt_text(user_agent)
}

/// The account a login signs in as: on the bootstrap path the provisioned
/// account, otherwise a looked-up account that passes the admin checks.
pub open spec fn login_source(
    bootstraps: bool,
    provision: Provision,
    lookup: Option<TenantUser>,
    password_verified: bool,
) -> Option<TenantUser> {
    if bootstraps {
        match provision {
            Provision::Created(u) => Some(u),
            _ => None,
        }
    } else {
        match lookup {
            Some(u) => if admin_rejection(u, password_verified) is None { Some(u) } else { None },
            None => None,
        }
    }
}

/// The admin login. `csrf_ok` is the form's CSRF test; `counts` the
/// bootstrap counters (users, admins, live sessions) when they could be read;
/// `bootstrap_password_ok` whether the password matches the configured
/// bootstrap digest; `provision` what provisioning gave (read only on the
/// bootstrap path); `lookup` and `password_verified` the account found under
/// the name and whether the password matches its hash (read only off it);
/// `session_token` the fresh token a session would get.
pub fn admin_login_outcome(
    csrf_ok: bool,
    counts: Option<(i64, i64, i64)>,
    form_username: &str,
    admin_username: &str,
    bootstrap_password_ok: bool,
    provision: Provision,
    lookup: Option<TenantUser>,
    password_verified: bool,
    session_token: &str,
    secure: bool,
    ip: &str,
    user_agent: Option<&str>,
) -> (r: LoginOutcome)
    ensures
        !csrf_ok ==> (r matches LoginOutcome::Redirect { location } && location@ == "/admin/login?error=Invalid CSRF token"@),
        csrf_ok && login_bootstraps(counts, form_username@, admin_username@, bootstrap_password_ok)
            && provision is HashFailed ==> (r matches LoginOutcome::Redirect { location }
            && location@ == "/admin/login?error=Internal hashing error"@),
        csrf_ok && !(login_bootstraps(counts, form_username@, admin_username@, bootstrap_password_ok)
            && provision is HashFailed) && login_source(
            login_bootstraps(counts, form_username@, admin_username@, bootstrap_password_ok),
            provision,
            lookup,
            password_verified,
        ) is None ==> (r matches LoginOutcome::Failed { audit, location } && audit_is(
            audit,
            "anonymous"@,
            "LOGIN_FAILED"@,
            "login"@,
            Seq::empty(),
            Some(login_meta(ip@, opt_text(user_agent))),
        ) && location@ == "/admin/login?error=Invalid username or password"@),
        csrf_ok ==> match login_source(
            login_bootstraps(counts, form_username@, admin_username@, bootstrap_password_ok),
            provision,
            lookup,
            password_verified,
        ) {
            Some(u) => r matches LoginOutcome::LoggedIn {
                user,
                provisioned,
                session,
                audit,
                session_cookie,
                clear_csrf,
                location,
            } && user.id@ == int_decimal(u.id as int) && user.username == u.username
                && user.password_hash == u.password_hash && user.created_at == u.created_at
                && (if login_bootstraps(counts, form_username@, admin_username@, bootstrap_password_ok) {
                    provisioned matches Some(p) && audit_is(
                        p,
                        u.username@,
                        "BOOTSTRAP_USER_PROVISIONED"@,
                        "user"@,
                        int_decimal(u.id as int),
                        Some(login_meta(ip@, opt_text(user_agent))),
                    )
                } else {
                    provisioned is None
                })
                && session.id@ == session_token@ && session.user_id == u.id && session.lifetime_days == 30
                && audit_is(audit, u.username@, "USER_LOGIN"@, "session"@, session_token@,
                    Some(login_meta(ip@, opt_text(user_agent))))
                && session_cookie.name@ == "bzod_session"@ && session_cookie.value@ == session_token@
                && session_cookie.path@ == "/"@ && session_cookie.max_age_secs == SESSION_SECS
                && locked_down(session_cookie, secure)
                && clears(clear_csrf, "bzod_temp_csrf"@, "/admin/login"@)
                && location@ == "/admin/dashboard"@,
            None => true,
        },
{
    if !csrf_ok {
        return LoginOutcome::Redirect { location: String::from_str("/admin/login?error=Invalid CSRF token") };
    }
    let boot = admin_login_bootstraps(counts, form_username, admin_username, bootstrap_password_ok);
    let meta = audit_meta(ip, user_agent);
    let mut provisioned: Option<AuditPlan> = None;
    let source: Option<TenantUser> = if boot {
        match provision {
            Provision::HashFailed => {
                return LoginOutcome::Redirect {
                    location: String::from_str("/admin/login?error=Internal hashing error"),
                };
            },
            Provision::StoreFailed => None,
            Provision::Created(u) => {
                let id_text = i64_decimal(u.id);
                provisioned = Some(audit_plan(
                    u.username.as_str(),
                    "BOOTSTRAP_USER_PROVISIONED",
                    "user",
                    id_text.as_str(),
                    Some(meta.clone()),
                ));
                Some(u)
            },
        }
    } else {
        match lookup {
            Some(u) => {
                match verify_admin_credentials(&u, password_verified) {
                    Ok(()) => Some(u),
                    Err(_) => None,
                }
            },
            None => None,
        }
    };
    match source {
        None => {
            proof {
                reveal_strlit("");
                assert(""@ =~= Seq::<char>::empty());
            }
            LoginOutcome::Failed {
            audit: audit_plan("anonymous", "LOGIN_FAILED", "login", "", Some(meta)),
            location: String::from_str("/admin/login?error=Invalid username or password"),
        }
        },
        Some(u) => {
            let uid = u.id;
            let user = tenant_user_to_admin_user(u);
            let audit = audit_plan(user.username.as_str(), "USER_LOGIN", "session", session_token, Some(meta));
            proof {
                crate::text::law_decimal_roundtrip(uid);
            }
            let user_id = crate::auth::session_user_id(user.id.as_str());
            LoginOutcome::LoggedIn {
                user,
                provisioned,
                session: SessionPlan { id: String::from_str(session_token), user_id, lifetime_days: 30 },
                audit,
                session_cookie: admin_session_cookie(session_token, secure),
                clear_csrf: admin_login_csrf_clear(),
                location: String::from_str("/admin/dashboard"),
            }
        },
    }
}

/// Where the admin login goes when storing the session fails.
pub fn admin_login_internal_error() -> (r: String)
    ensures
        r@ == "/admin/login?error=Internal error"@,
{
    String::from_str("/admin/login?error=Internal error")
}

} // verus!
