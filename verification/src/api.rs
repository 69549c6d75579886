//! The JSON API: its requests and replies, and the checks the endpoints make
//! before and after they touch storage.

use vstd::prelude::*;
use vstd::string::*;
use crate::auth::{debug_opt, debug_opt_text};
use crate::links::CodeChoice;
use crate::models::{ApiActor, TenantUser, opt_text};
use crate::text::{debug_str, debug_text, join_text, lowercase_str, trim_str};
use crate::users::normalized;
use crate::validation::{
    is_page_code, is_redirect_code, is_redirect_destination, validate_page_code, validate_redirect_code,
    validate_redirect_destination,
};

verus! {

pub struct CreateUrlRequest {
    pub destination: String,
    pub code: Option<String>,
    pub title: Option<String>,
    pub description: Option<String>,
    pub tags: Option<Vec<String>>,
    pub expires_at: Option<String>,
    pub password: Option<String>,
    pub max_access_count: Option<i64>,
    pub utm_source: Option<String>,
    pub utm_medium: Option<String>,
    pub utm_campaign: Option<String>,
}

pub struct UpdateUrlRequest {
    pub destination: String,
    pub title: Option<String>,
    pub description: Option<String>,
    /// `healthy`, `suspect` or `dead`.
    pub status: String,
    pub tags: Option<Vec<String>>,
    pub expires_at: Option<String>,
    pub password: Option<String>,
    pub max_access_count: Option<i64>,
}

pub struct CreatePageRequest {
    pub slug: String,
    pub title: String,
    pub html_content: String,
    /// `draft`, `published` or `archived`.
    pub state: String,
    pub code: Option<String>,
}

pub struct UpdatePageRequest {
    pub slug: String,
    pub title: String,
    pub html_content: String,
    pub state: String,
}

/// The JSON body of an API error.
pub struct ApiError {
    pub error: String,
}

pub struct ListQuery {
    pub limit: Option<i64>,
    pub offset: Option<i64>,
    pub tag: Option<String>,
}

pub struct AuditQuery {
    pub limit: Option<i64>,
    pub offset: Option<i64>,
    pub actor: Option<String>,
    pub action: Option<String>,
}

pub struct SetPreviewRequest {
    pub title: Option<String>,
    pub description: Option<String>,
    pub logo_url: Option<String>,
    pub button_text: Option<String>,
}

pub struct SetPasswordRequest {
    pub password: String,
}

pub struct CreateQrRequest {
    pub url_id: String,
    pub style: Option<String>,
}

/// Platform-wide figures.
pub struct OverallStatsResponse {
    pub total_urls: i64,
    pub total_pages: i64,
    pub total_clicks: i64,
    pub total_page_views: i64,
    pub active_links: i64,
    pub dead_links: i64,
}

/// The figures of one link or page: clicks per day and the top countries,
/// referrers and browsers.
pub struct DetailStatsResponse {
    pub target_id: String,
    pub clicks: Vec<(String, i64)>,
    pub top_countries: Vec<(String, i64)>,
    pub top_referrers: Vec<(String, i64)>,
    pub top_browsers: Vec<(String, i64)>,
}

pub struct QrStatsResponse {
    pub code: String,
    pub scan_count: i64,
    pub scans: Vec<(String, String)>,
}

/// An API error reply: the status and the JSON body.
pub struct ApiFailure {
    pub status: u16,
    pub body: ApiError,
}

pub open spec fn failure_is(f: ApiFailure, status: u16, message: Seq<char>) -> bool {
    f.status == status && f.body.error@ == message
}

pub fn api_failure(status: u16, message: &str) -> (r: ApiFailure)
    ensures
        failure_is(r, status, message@),
{
    ApiFailure { status, body: ApiError { error: String::from_str(message) } }
}

fn api_failure_owned(status: u16, message: String) -> (r: ApiFailure)
    ensures
        r.status == status,
        r.body.error == message,
{
    ApiFailure { status, body: ApiError { error: message } }
}

// ---------------------------------------------------------------------------
// Who the request acts for
// ---------------------------------------------------------------------------

/// Content endpoints act for a tenant account; an admin key is refused with
/// `400` and the endpoint's message.
pub fn tenant_context<'a>(actor: &'a ApiActor, admin_message: &str) -> (r: Result<&'a TenantUser, ApiFailure>)
    ensures
        match actor {
            ApiActor::User(u) => r is Ok && *r->Ok_0 == u,
            ApiActor::Admin(_) => r is Err && failure_is(r->Err_0, 400, admin_message@),
        },
{
    match actor {
        ApiActor::User(u) => Ok(u),
        ApiActor::Admin(_) => Err(api_failure(400, admin_message)),
    }
}

/// The message of the content endpoints for an admin key.
pub fn content_admin_message() -> (r: &'static str)
    ensures
        r@ == "Admin is a platform operator and cannot access application content directly without tenant context"@,
{
    "Admin is a platform operator and cannot access application content directly without tenant context"
}

/// The message of link creation for an admin key.
pub fn create_url_admin_message() -> (r: &'static str)
    ensures
        r@ == "Admin is a platform operator and cannot create application URLs directly without tenant context"@,
{
    "Admin is a platform operator and cannot create application URLs directly without tenant context"
}

/// The message of page creation for an admin key.
pub fn create_page_admin_message() -> (r: &'static str)
    ensures
        r@ == "Admin is a platform operator and cannot create application landing pages directly without tenant context"@,
{
    "Admin is a platform operator and cannot create application landing pages directly without tenant context"
}

// ---------------------------------------------------------------------------
// Creating links and pages
// ---------------------------------------------------------------------------

/// The code asked for in a creation request, normalized (absent counts as blank).
pub open spec fn requested_code(code: Option<Seq<char>>) -> Seq<char> {
    match code {
        Some(c) => normalized(c),
        None => normalized(Seq::empty()),
    }
}

fn normalize_requested(code: Option<&str>) -> (r: String)
    ensures
        r@ == requested_code(opt_text(code)),
{
    match code {
        Some(c) => lowercase_str(trim_str(c)),
        None => {
            proof {
                reveal_strlit("");
                assert(""@ =~= Seq::<char>::empty());
            }
            lowercase_str(trim_str(""))
        },
    }
}

/// The code of an API link: generated when blank, otherwise it must be a
/// link code (six hex characters or a custom slug); refused with `400`.
pub fn choose_url_code(code: Option<&str>) -> (r: Result<CodeChoice, ApiFailure>)
    ensures
        ({
            let c = requested_code(opt_text(code));
            if c.len() == 0 {
                r is Ok && r->Ok_0 is Generate
            } else if is_redirect_code(c) {
                r is Ok && r->Ok_0 is Chosen && r->Ok_0->Chosen_0@ == c
            } else {
                r is Err && failure_is(
                    r->Err_0,
                    400,
                    "Short code must be 6 hex characters or a custom slug starting with !"@,
                )
            }
        }),
{
    let c = normalize_requested(code);
    if c.as_str().is_empty() {
        Ok(CodeChoice::Generate)
    } else if validate_redirect_code(c.as_str()) {
        Ok(CodeChoice::Chosen(c))
    } else {
        Err(api_failure(400, "Short code must be 6 hex characters or a custom slug starting with !"))
    }
}

/// The code of an API page: generated when blank, otherwise it must be a
/// page code (four hex characters or a custom slug); refused with `400`.
pub fn choose_page_code(code: Option<&str>) -> (r: Result<CodeChoice, ApiFailure>)
    ensures
        ({
            let c = requested_code(opt_text(code));
            if c.len() == 0 {
                r is Ok && r->Ok_0 is Generate
            } else if is_page_code(c) {
                r is Ok && r->Ok_0 is Chosen && r->Ok_0->Chosen_0@ == c
            } else {
                r is Err && failure_is(
                    r->Err_0,
                    400,
                    "Short code must be 4 hex characters or start with ! followed by 1-24 characters of a-z, 0-9, -, _"@,
                )
            }
        }),
{
    let c = normalize_requested(code);
    if c.as_str().is_empty() {
        Ok(CodeChoice::Generate)
    } else if validate_page_code(c.as_str()) {
        Ok(CodeChoice::Chosen(c))
    } else {
        Err(
            api_failure(
                400,
                "Short code must be 4 hex characters or start with ! followed by 1-24 characters of a-z, 0-9, -, _",
            ),
        )
    }
}

/// A link gets a password only when a non-empty one is given.
pub fn password_to_set(password: Option<&str>) -> (r: Option<&str>)
    ensures
        match password {
            Some(p) => if p@.len() == 0 {
                r is None
            } else {
                r == Some(p)
            },
            None => r is None,
        },
{
    match password {
        Some(p) => if p.is_empty() {
            None
        } else {
            Some(p)
        },
        None => None,
    }
}

/// The refusal when the account has used up its quota.
pub fn quota_exceeded_failure() -> (r: ApiFailure)
    ensures
        failure_is(r, 403, "Quota limit exceeded"@),
{
    api_failure(403, "Quota limit exceeded")
}

/// The refusal when the registry cannot reserve the code.
pub fn code_unavailable_failure(reason: &str) -> (r: ApiFailure)
    ensures
        failure_is(r, 409, "Short code unavailable: "@ + reason@),
{
    api_failure_owned(409, join_text("Short code unavailable: ", reason))
}

/// A storage failure: `500` with the error text.
pub fn storage_failure(message: String) -> (r: ApiFailure)
    ensures
        r.status == 500,
        r.body.error == message,
{
    api_failure_owned(500, message)
}

/// The refusal when hashing a password failed.
pub fn hashing_failure(reason: &str) -> (r: ApiFailure)
    ensures
        failure_is(r, 500, "Password hashing error: "@ + reason@),
{
    api_failure_owned(500, join_text("Password hashing error: ", reason))
}

/// The detail recorded with link events: address and user agent in `Debug` form.
pub fn request_audit_detail(ip: &str, user_agent: Option<&str>) -> (r: String)
    ensures
        r@ == "IP: "@ + debug_text(ip@) + ", User-Agent: "@ + debug_opt_text(opt_text(user_agent)),
{
    let mut out = String::from_str("IP: ");
    let d = debug_str(ip);
    out.append(d.as_str());
    out.append(", User-Agent: ");
    let u = debug_opt(user_agent);
    out.append(u.as_str());
    out
}

// ---------------------------------------------------------------------------
// Reading and changing content
// ---------------------------------------------------------------------------

/// The window of a list request: limit and offset, each defaulted.
pub fn list_window(limit: Option<i64>, offset: Option<i64>, default_limit: i64) -> (r: (i64, i64))
    ensures
        r.0 == match limit {
            Some(l) => l,
            None => default_limit,
        },
        r.1 == match offset {
            Some(o) => o,
            None => 0,
        },
{
    let l = match limit {
        Some(l) => l,
        None => default_limit,
    };
    let o = match offset {
        Some(o) => o,
        None => 0,
    };
    (l, o)
}

/// An update keeps a stored destination only when it is a valid http(s) URL
/// without control characters.
pub fn check_update_destination(destination: &str) -> (r: Result<(), ApiFailure>)
    ensures
        is_redirect_destination(destination@) ==> r is Ok,
        !is_redirect_destination(destination@) ==> r is Err && failure_is(
            r->Err_0,
            400,
            "Destination must be a valid http(s) URL without control characters"@,
        ),
{
    if validate_redirect_destination(destination) {
        Ok(())
    } else {
        Err(api_failure(400, "Destination must be a valid http(s) URL without control characters"))
    }
}

/// What an update does to a link's password.
pub enum PasswordChange<'a> {
    Keep,
    Remove,
    Replace(&'a str),
}

/// No password field keeps the password, an empty one removes it, any other
/// replaces it.
pub fn password_change(password: Option<&str>) -> (r: PasswordChange)
    ensures
        match password {
            None => r is Keep,
            Some(p) => if p@.len() == 0 {
                r is Remove
            } else {
                r matches PasswordChange::Replace(q) && q == p
            },
        },
{
    match password {
        None => PasswordChange::Keep,
        Some(p) => if p.is_empty() {
            PasswordChange::Remove
        } else {
            PasswordChange::Replace(p)
        },
    }
}

/// The refusal for a missing item.
pub fn not_found_failure(message: &str) -> (r: ApiFailure)
    ensures
        failure_is(r, 404, message@),
{
    api_failure(404, message)
}

/// The reply to a deletion: `204` when something was deleted, `404` with
/// the message when nothing was, `500` with the error text on failure.
pub fn deletion_status(result: Result<bool, String>, not_found_message: &str) -> (r: Result<u16, ApiFailure>)
    ensures
        match result {
            Ok(true) => r == Ok::<u16, ApiFailure>(204),
            Ok(false) => r is Err && failure_is(r->Err_0, 404, not_found_message@),
            Err(e) => r is Err && r->Err_0.status == 500 && r->Err_0.body.error == e,
        },
{
    match result {
        Ok(true) => Ok(204),
        Ok(false) => Err(api_failure(404, not_found_message)),
        Err(e) => Err(api_failure_owned(500, e)),
    }
}

/// The style of a QR code: `default` unless one is given.
pub fn qr_style(style: Option<String>) -> (r: String)
    ensures
        match style {
            Some(s) => r == s,
            None => r@ == "default"@,
        },
{
    match style {
        Some(s) => s,
        None => String::from_str("default"),
    }
}

/// The detail recorded with a QR code event.
pub fn qr_style_detail(style: &str) -> (r: String)
    ensures
        r@ == "Style: "@ + style@,
{
    join_text("Style: ", style)
}

/// The platform figures; page views are not counted platform-wide.
pub fn overall_stats(total_urls: i64, total_pages: i64, total_clicks: i64, active_links: i64, dead_links: i64) -> (r: OverallStatsResponse)
    ensures
        r.total_urls == total_urls,
        r.total_pages == total_pages,
        r.total_clicks == total_clicks,
        r.total_page_views == 0,
        r.active_links == active_links,
        r.dead_links == dead_links,
{
    OverallStatsResponse { total_urls, total_pages, total_clicks, total_page_views: 0, active_links, dead_links }
}

} // verus!
