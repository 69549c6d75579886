//! Tenant account administration: the forms and requests, the rules a new
//! account, a status or an account type must meet, quota usage, and the
//! replies of the user management endpoints.

use vstd::prelude::*;
use vstd::string::*;
use crate::models::{ApiActor, Reply, TenantUser, UserQuotas};
use crate::redirect::{bare_reply, reply, reply_is};
use crate::text::{
    alphanumeric, char_is_alphanumeric, chars_of, i64_decimal, int_decimal, join_text, lowercase_str,
    lowercased, str_eq, trim_str, trimmed,
};

verus! {

/// Query of the user list page.
pub struct UsersQuery {
    pub success: Option<String>,
    pub error: Option<String>,
}

/// The admin UI form that creates an account.
pub struct CreateUserForm {
    pub username: String,
    pub password: String,
    pub account_type: String,
    pub metadata: String,
    pub csrf_token: String,
}

pub struct UpdateUserStatusForm {
    pub status: String,
    pub csrf_token: String,
}

pub struct UpdateUserTypeForm {
    pub account_type: String,
    pub csrf_token: String,
}

pub struct ResetPasswordForm {
    pub new_password: String,
    pub csrf_token: String,
}

pub struct DeleteUserForm {
    pub csrf_token: String,
}

/// The admin UI form that edits an account and its quota limits.
pub struct UserEditForm {
    pub account_type: String,
    pub metadata: String,
    pub max_urls: i64,
    pub max_landings: i64,
    pub max_api_tokens: i64,
    pub max_storage_mb: i64,
    pub csrf_token: String,
}

/// The API request that creates an account.
pub struct CreateUserRequest {
    pub username: String,
    pub password: String,
    pub account_type: Option<String>,
    pub metadata: Option<String>,
}

/// An account as the API returns it.
pub struct UserResponse {
    pub id: i64,
    pub username: String,
    pub status: String,
    pub account_type: String,
    pub created_at: String,
    pub metadata: Option<String>,
}

pub struct UpdateUserStatusRequest {
    pub status: String,
}

pub struct UpdateUserQuotasRequest {
    pub max_urls: i64,
    pub max_landings: i64,
    pub max_api_tokens: i64,
    pub max_storage_mb: i64,
}

pub struct ResetPasswordRequest {
    pub password: String,
}

pub struct ChangeOwnPasswordRequest {
    pub old_password: String,
    pub new_password: String,
}

/// Creating a token takes no input: the secret is generated.
pub struct CreateApiTokenRequest {}

/// A created token, with its secret shown this once.
pub struct CreateApiTokenResponse {
    pub id: i64,
    pub token: String,
    pub created_at: String,
}

/// Quota limits and usage of one account, with usage in whole percent.
pub struct UserDetailStats {
    pub max_urls: i64,
    pub max_landings: i64,
    pub max_api_tokens: i64,
    pub max_storage_mb: i64,
    pub current_urls: i64,
    pub current_landings: i64,
    pub current_api_tokens: i64,
    pub current_storage_mb: i64,
    pub url_pct: i64,
    pub landing_pct: i64,
    pub token_pct: i64,
    pub storage_pct: i64,
    pub total_visits: i64,
}

// ---------------------------------------------------------------------------
// Account names and passwords
// ---------------------------------------------------------------------------

/// A submitted name, code or keyword as it is compared and stored: trimmed,
/// then lowercased.
pub open spec fn normalized(raw: Seq<char>) -> Seq<char> {
    lowercased(trimmed(raw))
}

/// Length in bytes of the UTF-8 encoding of a text (std `str::len`).
pub open spec fn byte_len(s: Seq<char>) -> nat {
    vstd::utf8::encode_utf8(s).len()
}

pub open spec fn username_char(c: char) -> bool {
    alphanumeric(c) || c == '-' || c == '_'
}

/// Why a (normalized) username is refused, if it is.
pub open spec fn username_problem(name: Seq<char>) -> Option<Seq<char>> {
    if byte_len(name) < 3 {
        Some("Username must be at least 3 characters"@)
    } else if !(forall|i: int| 0 <= i < name.len() ==> username_char(#[trigger] name[i])) {
        Some("Username must contain only alphanumeric characters, hyphens, or underscores"@)
    } else {
        None
    }
}

fn all_username_chars(s: &str) -> (r: bool)
    ensures
        r == (forall|i: int| 0 <= i < s@.len() ==> username_char(#[trigger] s@[i])),
{
    let cs = chars_of(s);
    for i in 0..cs.len()
        invariant
            cs@ == s@,
            forall|j: int| 0 <= j < i ==> username_char(#[trigger] s@[j]),
    {
        let c = cs[i];
        if !(char_is_alphanumeric(c) || c == '-' || c == '_') {
            assert(!username_char(s@[i as int]));
            return false;
        }
    }
    true
}

/// Normalizes a submitted username and checks it: at least 3 bytes, and only
/// alphanumeric characters, `-` and `_`. On refusal, the message says why.
pub fn normalize_username(raw: &str) -> (r: Result<String, &'static str>)
    ensures
        match username_problem(normalized(raw@)) {
            None => r is Ok && r->Ok_0@ == normalized(raw@),
            Some(m) => r is Err && r->Err_0@ == m,
        },
{
    let name = lowercase_str(trim_str(raw));
    if name.as_str().as_bytes().len() < 3 {
        return Err("Username must be at least 3 characters");
    }
    if !all_username_chars(name.as_str()) {
        return Err("Username must contain only alphanumeric characters, hyphens, or underscores");
    }
    Ok(name)
}

/// A password set from the admin UI has at least 8 bytes once trimmed.
pub open spec fn password_acceptable(p: Seq<char>) -> bool {
    byte_len(trimmed(p)) >= 8
}

pub fn password_long_enough(password: &str) -> (r: bool)
    ensures
        r == password_acceptable(password@),
{
    trim_str(password).as_bytes().len() >= 8
}

// ---------------------------------------------------------------------------
// Creating accounts
// ---------------------------------------------------------------------------

/// What a validated creation request stores.
pub struct NewUserPlan {
    pub username: String,
    pub account_type: String,
    pub metadata: Option<String>,
}

/// The account type given in the admin form: trimmed, `standard` when blank.
pub open spec fn form_account_type(raw: Seq<char>) -> Seq<char> {
    if trimmed(raw).len() == 0 {
        "standard"@
    } else {
        trimmed(raw)
    }
}

/// The metadata given in the admin form: trimmed, none when blank.
pub open spec fn form_metadata(raw: Seq<char>) -> Option<Seq<char>> {
    if trimmed(raw).len() == 0 {
        None
    } else {
        Some(trimmed(raw))
    }
}

/// Why the admin form is refused, in the order the checks are made.
pub open spec fn create_form_problem(form: CreateUserForm) -> Option<Seq<char>> {
    match username_problem(normalized(form.username@)) {
        Some(m) => Some(m),
        None => if !password_acceptable(form.password@) {
            Some("Password must be at least 8 characters"@)
        } else {
            None
        },
    }
}

/// Checks the admin form that creates an account and says what to store.
pub fn plan_new_user(form: &CreateUserForm) -> (r: Result<NewUserPlan, &'static str>)
    ensures
        match create_form_problem(*form) {
            Some(m) => r is Err && r->Err_0@ == m,
            None => r is Ok && {
                let p = r->Ok_0;
                &&& p.username@ == normalized(form.username@)
                &&& p.account_type@ == form_account_type(form.account_type@)
                &&& match form_metadata(form.metadata@) {
                    Some(m) => p.metadata is Some && p.metadata->0@ == m,
                    None => p.metadata is None,
                }
            },
        },
{
    let username = match normalize_username(form.username.as_str()) {
        Ok(u) => u,
        Err(m) => return Err(m),
    };
    if !password_long_enough(form.password.as_str()) {
        return Err("Password must be at least 8 characters");
    }
    let at = trim_str(form.account_type.as_str());
    let account_type = if at.is_empty() {
        String::from_str("standard")
    } else {
        String::from_str(at)
    };
    let md = trim_str(form.metadata.as_str());
    let metadata = if md.is_empty() {
        None
    } else {
        Some(String::from_str(md))
    };
    Ok(NewUserPlan { username, account_type, metadata })
}

/// What the API stores for a creation request whose username passed: the
/// account type defaults to `standard`, the metadata is taken as given.
pub open spec fn api_plan_matches(req: CreateUserRequest, p: NewUserPlan) -> bool {
    &&& p.username@ == normalized(req.username@)
    &&& p.account_type@ == match req.account_type {
        Some(t) => t@,
        None => "standard"@,
    }
    &&& p.metadata == req.metadata
}

/// Checks an API creation request: only the username is checked here (the
/// password is taken as given). A refusal is a `400` with the reason.
pub fn plan_api_new_user(req: CreateUserRequest) -> (r: Result<NewUserPlan, Reply>)
    ensures
        match username_problem(normalized(req.username@)) {
            Some(m) => r is Err && reply_is(r->Err_0, 400, None, m),
            None => r is Ok && api_plan_matches(req, r->Ok_0),
        },
{
    let username = match normalize_username(req.username.as_str()) {
        Ok(u) => u,
        Err(m) => return Err(reply(400, None, m)),
    };
    let account_type = match req.account_type {
        Some(t) => t,
        None => String::from_str("standard"),
    };
    Ok(NewUserPlan { username, account_type, metadata: req.metadata })
}

/// Standard accounts get their own databases right after creation.
pub fn needs_user_databases(account_type: &str) -> (r: bool)
    ensures
        r == (account_type@ == "standard"@),
{
    str_eq(account_type, "standard")
}

/// How storing a new account failed.
pub enum CreateUserFailure {
    /// The username is taken (a uniqueness constraint was violated).
    UsernameTaken,
    /// Any other storage error, with its text.
    Storage(String),
}

/// The API reply to a failed creation: `409` for a taken name, `500` with the
/// error text otherwise.
pub fn create_user_failure_reply(f: CreateUserFailure) -> (r: Reply)
    ensures
        match f {
            CreateUserFailure::UsernameTaken => reply_is(r, 409, None, "Username already exists"@),
            CreateUserFailure::Storage(e) => reply_is(r, 500, None, e@),
        },
{
    match f {
        CreateUserFailure::UsernameTaken => reply(409, None, "Username already exists"),
        CreateUserFailure::Storage(e) => Reply { status: 500, location: None, body: e },
    }
}

/// Where the admin UI goes after a failed creation.
pub fn create_user_failure_location(f: &CreateUserFailure) -> (r: String)
    ensures
        match f {
            CreateUserFailure::UsernameTaken => r@ == "/admin/users?error=Username already exists"@,
            CreateUserFailure::Storage(e) => r@ == "/admin/users?error=Database error: "@ + e@,
        },
{
    match f {
        CreateUserFailure::UsernameTaken => String::from_str("/admin/users?error=Username already exists"),
        CreateUserFailure::Storage(e) => join_text("/admin/users?error=Database error: ", e.as_str()),
    }
}

/// The user list page with an error message.
pub fn users_error_location(message: &str) -> (r: String)
    ensures
        r@ == "/admin/users?error="@ + message@,
{
    join_text("/admin/users?error=", message)
}

/// The user list page with a success message.
pub fn users_success_location(message: &str) -> (r: String)
    ensures
        r@ == "/admin/users?success="@ + message@,
{
    join_text("/admin/users?success=", message)
}

// ---------------------------------------------------------------------------
// Status and account type
// ---------------------------------------------------------------------------

pub open spec fn is_user_status(s: Seq<char>) -> bool {
    s == "active"@ || s == "disabled"@ || s == "suspended"@ || s == "pending"@ || s == "deleted"@
}

pub open spec fn is_account_type(s: Seq<char>) -> bool {
    s == "admin"@ || s == "standard"@ || s == "organization"@ || s == "service"@ || s == "system"@
}

/// The submitted status, trimmed and lowercased, when it is one of the five
/// account states.
pub fn normalize_user_status(raw: &str) -> (r: Option<String>)
    ensures
        is_user_status(normalized(raw@)) ==> r is Some && r->0@ == normalized(raw@),
        !is_user_status(normalized(raw@)) ==> r is None,
{
    let s = lowercase_str(trim_str(raw));
    let t = s.as_str();
    if str_eq(t, "active") || str_eq(t, "disabled") || str_eq(t, "suspended") || str_eq(t, "pending")
        || str_eq(t, "deleted") {
        Some(s)
    } else {
        None
    }
}

/// The submitted account type, trimmed and lowercased, when it is one of the
/// five account types.
pub fn normalize_account_type(raw: &str) -> (r: Option<String>)
    ensures
        is_account_type(normalized(raw@)) ==> r is Some && r->0@ == normalized(raw@),
        !is_account_type(normalized(raw@)) ==> r is None,
{
    let s = lowercase_str(trim_str(raw));
    let t = s.as_str();
    if str_eq(t, "admin") || str_eq(t, "standard") || str_eq(t, "organization") || str_eq(t, "service")
        || str_eq(t, "system") {
        Some(s)
    } else {
        None
    }
}

// ---------------------------------------------------------------------------
// Quotas
// ---------------------------------------------------------------------------

/// Rust's integer division, which rounds toward zero.
pub open spec fn trunc_div(a: int, b: int) -> int
    recommends
        b > 0,
{
    if a >= 0 {
        a / b
    } else {
        -((-a) / b)
    }
}

/// Usage in whole percent, rounded toward zero; 0 where there is no limit.
pub open spec fn usage_percent(current: int, max: int) -> int {
    if max > 0 {
        trunc_div(current * 100, max)
    } else {
        0
    }
}

pub fn quota_percent(current: i64, max: i64) -> (r: i64)
    requires
        i64::MIN <= current * 100 <= i64::MAX,
    ensures
        r == usage_percent(current as int, max as int),
{
    if max <= 0 {
        return 0;
    }
    let n: i64 = current * 100;
    if n >= 0 {
        let q: i64 = n / max;
        q
    } else {
        let m: u64 = if n == i64::MIN {
            9223372036854775808u64
        } else {
            (-n) as u64
        };
        let q: u64 = m / (max as u64);
        assert(q <= m);
        assert(q as int == (-(n as int)) / (max as int));
        assert(q <= 9223372036854775808u64) by {
            assert(m <= 9223372036854775808u64);
        }
        if q == 9223372036854775808u64 {
            i64::MIN
        } else {
            -(q as i64)
        }
    }
}

/// The limits that apply where none are stored: 100 links, 10 pages,
/// 5 API tokens, 100 MB, nothing used.
pub open spec fn default_quotas_for(user_id: i64) -> UserQuotas {
    UserQuotas {
        user_id,
        max_urls: 100,
        max_landings: 10,
        max_api_tokens: 5,
        max_storage_mb: 100,
        current_urls: 0,
        current_landings: 0,
        current_api_tokens: 0,
        current_storage_mb: 0,
    }
}

pub fn default_quotas(user_id: i64) -> (r: UserQuotas)
    ensures
        r == default_quotas_for(user_id),
{
    UserQuotas {
        user_id,
        max_urls: 100,
        max_landings: 10,
        max_api_tokens: 5,
        max_storage_mb: 100,
        current_urls: 0,
        current_landings: 0,
        current_api_tokens: 0,
        current_storage_mb: 0,
    }
}

/// The percentages can be computed without overflow.
pub open spec fn quotas_in_range(q: UserQuotas) -> bool {
    &&& i64::MIN <= q.current_urls * 100 <= i64::MAX
    &&& i64::MIN <= q.current_landings * 100 <= i64::MAX
    &&& i64::MIN <= q.current_api_tokens * 100 <= i64::MAX
    &&& i64::MIN <= q.current_storage_mb * 100 <= i64::MAX
}

pub open spec fn detail_stats_of(q: UserQuotas, total_visits: i64, s: UserDetailStats) -> bool {
    &&& s.max_urls == q.max_urls
    &&& s.max_landings == q.max_landings
    &&& s.max_api_tokens == q.max_api_tokens
    &&& s.max_storage_mb == q.max_storage_mb
    &&& s.current_urls == q.current_urls
    &&& s.current_landings == q.current_landings
    &&& s.current_api_tokens == q.current_api_tokens
    &&& s.current_storage_mb == q.current_storage_mb
    &&& s.url_pct == usage_percent(q.current_urls as int, q.max_urls as int)
    &&& s.landing_pct == usage_percent(q.current_landings as int, q.max_landings as int)
    &&& s.token_pct == usage_percent(q.current_api_tokens as int, q.max_api_tokens as int)
    &&& s.storage_pct == usage_percent(q.current_storage_mb as int, q.max_storage_mb as int)
    &&& s.total_visits == total_visits
}

/// The detail figures of an account from its stored quotas (the defaults
/// where none are stored) and its visit count.
pub fn get_user_detail_stats(stored: Option<UserQuotas>, user_id: i64, total_visits: i64) -> (r: UserDetailStats)
    requires
        match stored {
            Some(q) => quotas_in_range(q),
            None => true,
        },
    ensures
        detail_stats_of(
            match stored {
                Some(q) => q,
                None => default_quotas_for(user_id),
            },
            total_visits,
            r,
        ),
{
    let q = match stored {
        Some(q) => q,
        None => default_quotas(user_id),
    };
    UserDetailStats {
        max_urls: q.max_urls,
        max_landings: q.max_landings,
        max_api_tokens: q.max_api_tokens,
        max_storage_mb: q.max_storage_mb,
        current_urls: q.current_urls,
        current_landings: q.current_landings,
        current_api_tokens: q.current_api_tokens,
        current_storage_mb: q.current_storage_mb,
        url_pct: quota_percent(q.current_urls, q.max_urls),
        landing_pct: quota_percent(q.current_landings, q.max_landings),
        token_pct: quota_percent(q.current_api_tokens, q.max_api_tokens),
        storage_pct: quota_percent(q.current_storage_mb, q.max_storage_mb),
        total_visits,
    }
}

/// A new API token is refused once the stored count reaches the limit; with
/// no stored quotas nothing is refused.
pub open spec fn token_quota_reached(q: Option<UserQuotas>) -> bool {
    match q {
        Some(q) => q.current_api_tokens >= q.max_api_tokens,
        None => false,
    }
}

pub fn api_token_quota_reached(q: &Option<UserQuotas>) -> (r: bool)
    ensures
        r == token_quota_reached(*q),
{
    match q {
        Some(q) => q.current_api_tokens >= q.max_api_tokens,
        None => false,
    }
}

/// The audit detail of a quota change.
pub fn quota_update_detail(req: &UpdateUserQuotasRequest) -> (r: String)
    ensures
        r@ == "max_urls: "@ + int_decimal(req.max_urls as int) + ", max_landings: "@
            + int_decimal(req.max_landings as int) + ", max_api_tokens: "@
            + int_decimal(req.max_api_tokens as int) + ", max_storage_mb: "@
            + int_decimal(req.max_storage_mb as int),
{
    let mut out = String::from_str("max_urls: ");
    let a = i64_decimal(req.max_urls);
    out.append(a.as_str());
    out.append(", max_landings: ");
    let b = i64_decimal(req.max_landings);
    out.append(b.as_str());
    out.append(", max_api_tokens: ");
    let c = i64_decimal(req.max_api_tokens);
    out.append(c.as_str());
    out.append(", max_storage_mb: ");
    let d = i64_decimal(req.max_storage_mb);
    out.append(d.as_str());
    out
}

/// The audit detail of an account event that names the account.
pub fn username_detail(username: &str) -> (r: String)
    ensures
        r@ == "Username: "@ + username@,
{
    join_text("Username: ", username)
}

/// The audit detail of a status change.
pub fn status_detail(status: &str) -> (r: String)
    ensures
        r@ == "New Status: "@ + status@,
{
    join_text("New Status: ", status)
}

// ---------------------------------------------------------------------------
// Deleting accounts
// ---------------------------------------------------------------------------

/// The account created at installation (id 1) is deleted only when forced.
pub fn delete_user_guard(target_id: i64, force: bool) -> (r: Result<(), String>)
    ensures
        (target_id == 1 && !force) ==> r is Err && r->Err_0@ == "Deleting legacy_admin system account requires force flag"@,
        !(target_id == 1 && !force) ==> r is Ok,
{
    if target_id == 1 && !force {
        return Err(String::from_str("Deleting legacy_admin system account requires force flag"));
    }
    Ok(())
}

/// The `force` query parameter counts only when it is exactly `true`.
pub fn force_flag(param: Option<&str>) -> (r: bool)
    ensures
        r == (param is Some && param->0@ == "true"@),
{
    match param {
        Some(v) => str_eq(v, "true"),
        None => false,
    }
}

/// The API reply to a deletion: `200`; `404` when the account does not
/// exist; `400` with the reason for the protected account; `500` with the
/// error text otherwise.
pub fn delete_user_reply(result: Result<(), String>) -> (r: Reply)
    ensures
        match result {
            Ok(()) => reply_is(r, 200, None, Seq::empty()),
            Err(e) => if e@ == "User not found"@ {
                reply_is(r, 404, None, Seq::empty())
            } else if e@ == "Deleting legacy_admin system account requires force flag"@ {
                reply_is(r, 400, None, e@)
            } else {
                reply_is(r, 500, None, e@)
            },
        },
{
    match result {
        Ok(()) => bare_reply(200, None),
        Err(e) => {
            if str_eq(e.as_str(), "User not found") {
                bare_reply(404, None)
            } else if str_eq(e.as_str(), "Deleting legacy_admin system account requires force flag") {
                Reply { status: 400, location: None, body: e }
            } else {
                Reply { status: 500, location: None, body: e }
            }
        },
    }
}

// ---------------------------------------------------------------------------
// Replies
// ---------------------------------------------------------------------------

/// An account as the API shows it: every field but the password hash.
pub fn user_response_of(u: TenantUser) -> (r: UserResponse)
    ensures
        r.id == u.id,
        r.username == u.username,
        r.status == u.status,
        r.account_type == u.account_type,
        r.created_at == u.created_at,
        r.metadata == u.metadata,
{
    UserResponse {
        id: u.id,
        username: u.username,
        status: u.status,
        account_type: u.account_type,
        created_at: u.created_at,
        metadata: u.metadata,
    }
}

/// The accounts of a list, in order, as the API shows them.
pub fn user_responses(users: Vec<TenantUser>) -> (r: Vec<UserResponse>)
    ensures
        r.len() == users.len(),
        forall|i: int| 0 <= i < r.len() ==> {
            let (a, u) = (#[trigger] r@[i], users@[i]);
            &&& a.id == u.id
            &&& a.username == u.username
            &&& a.status == u.status
            &&& a.account_type == u.account_type
            &&& a.created_at == u.created_at
            &&& a.metadata == u.metadata
        },
{
    let mut users = users;
    let ghost orig = users@;
    let mut out: Vec<UserResponse> = Vec::new();
    while users.len() > 0
        invariant
            out.len() + users.len() == orig.len(),
            users@ == orig.subrange(out.len() as int, orig.len() as int),
            forall|i: int| 0 <= i < out.len() ==> {
                let (a, u) = (#[trigger] out@[i], orig[i]);
                &&& a.id == u.id
                &&& a.username == u.username
                &&& a.status == u.status
                &&& a.account_type == u.account_type
                &&& a.created_at == u.created_at
                &&& a.metadata == u.metadata
            },
        decreases users.len(),
    {
        let u = users.remove(0);
        out.push(user_response_of(u));
        assert(users@ =~= orig.subrange(out.len() as int, orig.len() as int));
    }
    out
}

/// The tenant account an endpoint for tenant users acts for; an admin caller
/// gets `400` with the endpoint's message.
pub fn tenant_actor(actor: ApiActor, message: &str) -> (r: Result<TenantUser, Reply>)
    ensures
        match actor {
            ApiActor::User(u) => r == Ok::<TenantUser, Reply>(u),
            ApiActor::Admin(_) => r is Err && reply_is(r->Err_0, 400, None, message@),
        },
{
    match actor {
        ApiActor::User(u) => Ok(u),
        ApiActor::Admin(_) => Err(reply(400, None, message)),
    }
}

/// The answer to a password change once the current password was checked:
/// `401` when it did not match, otherwise go on.
pub fn current_password_check(matches: bool) -> (r: Option<Reply>)
    ensures
        matches ==> r is None,
        !matches ==> r is Some && reply_is(r->0, 401, None, "Invalid current password"@),
{
    if matches {
        None
    } else {
        Some(reply(401, None, "Invalid current password"))
    }
}

/// Where an account edit goes: back to the form on a bad CSRF token, to the
/// account page when saved.
pub fn user_edit_location(id: i64, csrf_ok: bool) -> (r: String)
    ensures
        !csrf_ok ==> r@ == "/admin/users/"@ + int_decimal(id as int) + "/edit?error=Invalid CSRF token"@,
        csrf_ok ==> r@ == "/admin/users/"@ + int_decimal(id as int) + "?success=User updated successfully"@,
{
    let n = i64_decimal(id);
    let mut out = join_text("/admin/users/", n.as_str());
    if csrf_ok {
        out.append("?success=User updated successfully");
    } else {
        out.append("/edit?error=Invalid CSRF token");
    }
    out
}

} // verus!
