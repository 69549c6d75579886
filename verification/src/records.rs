//! What a served link or landing page records for the analytics queue, and
//! the fresh ids and timestamps that stored events carry.

use vstd::prelude::*;
use vstd::string::*;
use crate::redirect::{header_or, page_visit_owner, visit_status_code};

verus! {

/// A lowercase hexadecimal digit.
pub open spec fn lower_hex_char(c: char) -> bool {
    ('0' <= c && c <= '9') || ('a' <= c && c <= 'f')
}

/// The character at position `i` of a hyphenated UUID: a hyphen at 8, 13,
/// 18 and 23, a lowercase hex digit elsewhere.
pub open spec fn uuid_char_ok(i: int, c: char) -> bool {
    if i == 8 || i == 13 || i == 18 || i == 23 {
        c == '-'
    } else {
        lower_hex_char(c)
    }
}

/// The text of a random (version 4, RFC variant) UUID as uuid writes it:
/// 36 characters, hyphenated, lowercase, version digit `4`, variant digit
/// one of `8`, `9`, `a`, `b`.
pub open spec fn is_uuid_v4_text(s: Seq<char>) -> bool {
    &&& s.len() == 36
    &&& forall|i: int| 0 <= i < 36 ==> uuid_char_ok(i, #[trigger] s[i])
    &&& s[14] == '4'
    &&& (s[19] == '8' || s[19] == '9' || s[19] == 'a' || s[19] == 'b')
}

/// uuid `Uuid::new_v4().to_string()`: random, so only its shape is stated
/// (the crate masks in version 4 and the RFC variant and writes the
/// hyphenated lowercase form).
#[verifier::external_body]
pub(crate) fn fresh_uuid() -> (r: String)
    ensures
        is_uuid_v4_text(r@),
{
    uuid::Uuid::new_v4().to_string()
}

/// chrono `Utc::now().to_rfc3339()`: depends on the clock, so only what
/// every such text shares is stated: at least a date, a time and an offset,
/// and the UTC offset written as `+00:00`.
#[verifier::external_body]
pub(crate) fn now_rfc3339() -> (r: String)
    ensures
        r@.len() >= 25,
        r@.subrange(r@.len() - 6, r@.len() as int) == "+00:00"@,
{
    chrono::Utc::now().to_rfc3339()
}

/// A visit of a link or a landing page, as handed to the analytics queue.
pub struct VisitRecord {
    pub id: String,
    pub target_type: String,
    pub target_id: String,
    pub timestamp: String,
    pub ip_address: String,
    pub user_agent: String,
    pub referer: String,
    pub accept_language: String,
    pub country: String,
    pub status_code: i64,
    pub owner_tenant_id: Option<String>,
    pub owner_user_id: Option<i64>,
}

/// The request headers that a visit keeps (absent or unreadable ones are
/// `None`).
pub struct VisitHeaders {
    pub user_agent: Option<String>,
    pub referer: Option<String>,
    pub accept_language: Option<String>,
}

/// Text of an optional header, defaulted as a visit records it.
pub open spec fn header_text(h: Option<String>, default: Seq<char>) -> Seq<char> {
    match h {
        Some(v) => v@,
        None => default,
    }
}

/// The request-side fields of a visit: where it came from and what it sent.
pub open spec fn visit_request_fields(r: VisitRecord, ip_address: Seq<char>, country: Seq<char>, headers: VisitHeaders) -> bool {
    &&& r.ip_address@ == ip_address
    &&& r.country@ == country
    &&& r.user_agent@ == header_text(headers.user_agent, "Unknown"@)
    &&& r.referer@ == header_text(headers.referer, "Direct"@)
    &&& r.accept_language@ == header_text(headers.accept_language, "Unknown"@)
}

/// A fresh id and the current UTC time.
pub open spec fn fresh_stamp(r: VisitRecord) -> bool {
    &&& is_uuid_v4_text(r.id@)
    &&& r.timestamp@.len() >= 25
    &&& r.timestamp@.subrange(r.timestamp@.len() - 6, r.timestamp@.len() as int) == "+00:00"@
}

fn opt_header(h: &Option<String>) -> (r: Option<&str>)
    ensures
        match h {
            Some(v) => r is Some && r->0@ == v@,
            None => r is None,
        },
{
    match h {
        Some(v) => Some(v.as_str()),
        None => None,
    }
}

fn visit_record(
    target_type: &str,
    target_id: &str,
    ip_address: &str,
    country: &str,
    headers: VisitHeaders,
    status_code: i64,
    owner_tenant_id: Option<String>,
    owner_user_id: Option<i64>,
) -> (r: VisitRecord)
    ensures
        fresh_stamp(r),
        r.target_type@ == target_type@,
        r.target_id@ == target_id@,
        visit_request_fields(r, ip_address@, country@, headers),
        r.status_code == status_code,
        r.owner_tenant_id == owner_tenant_id,
        r.owner_user_id == owner_user_id,
{
    let user_agent = header_or(opt_header(&headers.user_agent), "Unknown");
    let referer = header_or(opt_header(&headers.referer), "Direct");
    let accept_language = header_or(opt_header(&headers.accept_language), "Unknown");
    proof {
        reveal_strlit("Unknown");
        reveal_strlit("Direct");
    }
    VisitRecord {
        id: fresh_uuid(),
        target_type: String::from_str(target_type),
        target_id: String::from_str(target_id),
        timestamp: now_rfc3339(),
        ip_address: String::from_str(ip_address),
        user_agent,
        referer,
        accept_language,
        country: String::from_str(country),
        status_code,
        owner_tenant_id,
        owner_user_id,
    }
}

/// The visit a served short link records: target `url`, status 200 when a
/// preview page is shown and 302 for a plain redirect, owned by the link's
/// owner.
pub fn url_visit_record(
    url_id: &str,
    ip_address: &str,
    country: &str,
    headers: VisitHeaders,
    has_preview: bool,
    owner_tenant_id: Option<String>,
    owner_user_id: i64,
) -> (r: VisitRecord)
    ensures
        fresh_stamp(r),
        r.target_type@ == "url"@,
        r.target_id@ == url_id@,
        visit_request_fields(r, ip_address@, country@, headers),
        r.status_code == if has_preview { 200i64 } else { 302i64 },
        r.owner_tenant_id == owner_tenant_id,
        r.owner_user_id == Some(owner_user_id),
{
    let status = visit_status_code(has_preview);
    proof {
        reveal_strlit("url");
    }
    visit_record("url", url_id, ip_address, country, headers, status, owner_tenant_id, Some(owner_user_id))
}

/// The visit a published landing page records: target `page`, status 200,
/// owned by the page's owner when its tenant id reads as a number.
pub fn page_visit_record(
    page_id: &str,
    ip_address: &str,
    country: &str,
    headers: VisitHeaders,
    owner_tenant_text: &str,
    owner_tenant_id: Option<String>,
) -> (r: VisitRecord)
    ensures
        fresh_stamp(r),
        r.target_type@ == "page"@,
        r.target_id@ == page_id@,
        visit_request_fields(r, ip_address@, country@, headers),
        r.status_code == 200,
        r.owner_tenant_id == owner_tenant_id,
        r.owner_user_id == crate::text::parse_i64_text(owner_tenant_text@),
{
    let owner = page_visit_owner(owner_tenant_text);
    proof {
        reveal_strlit("page");
    }
    visit_record("page", page_id, ip_address, country, headers, 200, owner_tenant_id, owner)
}

} // verus!
