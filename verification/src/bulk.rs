//! Bulk operations of the API: QR export of many links as one archive, and
//! creation of many links in one request.

use vstd::prelude::*;
use vstd::string::*;
use crate::api::{ApiError, ApiFailure, api_failure, failure_is};
use crate::auth::{debug_opt, debug_opt_text};
use crate::models::{ApiActor, TenantUser, opt_string, opt_text};
use crate::text::{debug_str, debug_text, join_text, lowercase_str, lowercased, nat_decimal, str_eq, u64_decimal};

verus! {

pub struct BulkQrRequest {
    pub ids: Vec<String>,
    pub format: Option<String>,
}

/// One link of a bulk creation request.
pub struct BulkUrlItem {
    pub destination: String,
    pub code: Option<String>,
    pub title: Option<String>,
    pub description: Option<String>,
    pub tags: Option<Vec<String>>,
    pub expires_at: Option<String>,
    pub password: Option<String>,
    pub max_access_count: Option<i64>,
}

/// The JSON body of a bulk error.
pub struct BulkErrorResponse {
    pub error: String,
}

/// The most items one bulk request may carry.
pub const BULK_LIMIT: usize = 500;

/// The image format of a QR export: lowercased, `png` when none is given.
pub open spec fn export_format(format: Option<Seq<char>>) -> Seq<char> {
    match format {
        Some(f) => lowercased(f),
        None => lowercased("png"@),
    }
}

/// Why a QR export request is refused before anything is read: too many ids,
/// or a format other than `png` and `svg`.
pub open spec fn bulk_qr_refusal(id_count: nat, format: Option<Seq<char>>) -> Option<Seq<char>> {
    if id_count > 500 {
        Some("Maximum 500 QR codes allowed per bulk request"@)
    } else if export_format(format) != "png"@ && export_format(format) != "svg"@ {
        Some("Invalid format. Supported: png, svg"@)
    } else {
        None
    }
}

/// Checks a QR export request; on success, the format to render.
pub fn check_bulk_qr(req: &BulkQrRequest) -> (r: Result<String, ApiFailure>)
    ensures
        match bulk_qr_refusal(req.ids@.len(), opt_string(req.format)) {
            Some(m) => r is Err && failure_is(r->Err_0, 400, m),
            None => r is Ok && r->Ok_0@ == export_format(opt_string(req.format)),
        },
{
    if req.ids.len() > BULK_LIMIT {
        return Err(api_failure(400, "Maximum 500 QR codes allowed per bulk request"));
    }
    let format = match &req.format {
        Some(f) => lowercase_str(f.as_str()),
        None => lowercase_str("png"),
    };
    if !str_eq(format.as_str(), "png") && !str_eq(format.as_str(), "svg") {
        return Err(api_failure(400, "Invalid format. Supported: png, svg"));
    }
    Ok(format)
}

/// Refusal when none of the ids named a link of the account.
pub fn no_links_found_failure() -> (r: ApiFailure)
    ensures
        failure_is(r, 400, "No valid URLs found for the provided IDs"@),
{
    api_failure(400, "No valid URLs found for the provided IDs")
}

/// Refusal when reading one of the links failed.
pub fn link_read_failure(id: &str, reason: &str) -> (r: ApiFailure)
    ensures
        failure_is(r, 500, "Database error fetching URL "@ + id@ + ": "@ + reason@),
{
    let mut m = join_text("Database error fetching URL ", id);
    m.append(": ");
    m.append(reason);
    ApiFailure { status: 500, body: ApiError { error: m } }
}

/// Refusal when the archive could not be built.
pub fn archive_failure(reason: &str) -> (r: ApiFailure)
    ensures
        failure_is(r, 500, "Error generating ZIP: "@ + reason@),
{
    ApiFailure { status: 500, body: ApiError { error: join_text("Error generating ZIP: ", reason) } }
}

/// The detail recorded with a QR export.
pub fn bulk_qr_detail(count: usize, format: &str) -> (r: String)
    ensures
        r@ == "Count: "@ + nat_decimal(count as nat) + ", Format: "@ + format@,
{
    let n = u64_decimal(count as u64);
    let mut out = join_text("Count: ", n.as_str());
    out.append(", Format: ");
    out.append(format);
    out
}

/// The base of the addresses encoded in QR codes: the configured base URL,
/// or the scheme (https when cookies are secure) and the request's `Host`
/// (`localhost:8654` without one).
pub fn public_base_url(configured: Option<&str>, cookie_secure: bool, host: Option<&str>) -> (r: String)
    ensures
        ({
            let h = match host {
                Some(h) => h@,
                None => "localhost:8654"@,
            };
            match configured {
                Some(b) => r@ == b@,
                None => if cookie_secure {
                    r@ == "https://"@ + h
                } else {
                    r@ == "http://"@ + h
                },
            }
        }),
{
    match configured {
        Some(b) => String::from_str(b),
        None => {
            let h = match host {
                Some(h) => h,
                None => "localhost:8654",
            };
            if cookie_secure {
                join_text("https://", h)
            } else {
                join_text("http://", h)
            }
        },
    }
}

// ---------------------------------------------------------------------------
// Bulk link creation
// ---------------------------------------------------------------------------

/// Refusal of a creation request with too many links.
pub fn check_bulk_url_count(count: usize) -> (r: Result<(), ApiFailure>)
    ensures
        count <= 500 ==> r is Ok,
        count > 500 ==> r is Err && failure_is(r->Err_0, 400, "Maximum 500 URLs allowed per bulk creation"@),
{
    if count > BULK_LIMIT {
        Err(api_failure(400, "Maximum 500 URLs allowed per bulk creation"))
    } else {
        Ok(())
    }
}

/// The account a bulk creation acts for: an admin key is refused with `403`,
/// an account without a tenant with `400`.
pub fn bulk_url_account(actor: &ApiActor) -> (r: Result<(&TenantUser, &String), ApiFailure>)
    ensures
        match actor {
            ApiActor::Admin(_) => r is Err && failure_is(
                r->Err_0,
                403,
                "Admin is a platform operator and cannot create application URLs directly without tenant context"@,
            ),
            ApiActor::User(u) => match u.tenant_id {
                Some(t) => r is Ok && *r->Ok_0.0 == u && *r->Ok_0.1 == t,
                None => r is Err && failure_is(r->Err_0, 400, "User has no tenant context"@),
            },
        },
{
    match actor {
        ApiActor::Admin(_) => Err(
            api_failure(
                403,
                "Admin is a platform operator and cannot create application URLs directly without tenant context",
            ),
        ),
        ApiActor::User(u) => match &u.tenant_id {
            Some(t) => Ok((u, t)),
            None => Err(api_failure(400, "User has no tenant context")),
        },
    }
}

/// How a bulk creation failed.
pub enum BulkUrlError {
    BadRequest(String),
    Conflict(String),
    Forbidden(String),
    Internal(String),
}

/// The reply to a failed bulk creation: `400`, `409`, `403` or `500` with
/// the failure's message.
pub fn bulk_url_error_response(err: BulkUrlError) -> (r: ApiFailure)
    ensures
        match err {
            BulkUrlError::BadRequest(m) => r.status == 400 && r.body.error == m,
            BulkUrlError::Conflict(m) => r.status == 409 && r.body.error == m,
            BulkUrlError::Forbidden(m) => r.status == 403 && r.body.error == m,
            BulkUrlError::Internal(m) => r.status == 500 && r.body.error == m,
        },
{
    let (status, msg) = match err {
        BulkUrlError::BadRequest(m) => (400u16, m),
        BulkUrlError::Conflict(m) => (409u16, m),
        BulkUrlError::Forbidden(m) => (403u16, m),
        BulkUrlError::Internal(m) => (500u16, m),
    };
    ApiFailure { status, body: ApiError { error: msg } }
}

/// The detail recorded with a bulk creation.
pub fn bulk_url_detail(count: usize, ip: &str, user_agent: Option<&str>) -> (r: String)
    ensures
        r@ == "Count: "@ + nat_decimal(count as nat) + ", IP: "@ + debug_text(ip@) + ", User-Agent: "@
            + debug_opt_text(opt_text(user_agent)),
{
    let n = u64_decimal(count as u64);
    let mut out = join_text("Count: ", n.as_str());
    out.append(", IP: ");
    let d = debug_str(ip);
    out.append(d.as_str());
    out.append(", User-Agent: ");
    let u = debug_opt(user_agent);
    out.append(u.as_str());
    out
}

} // verus!
