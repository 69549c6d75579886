//! Public resolution of short codes, landing pages and password gates.
//!
//! The handlers look slugs and links up in storage; these functions decide,
//! from what was found, which reply goes out.

use vstd::prelude::*;
use vstd::string::*;
use crate::models::{Reply, SlugInfo, SlugTargetType, Url, access_exhausted, deref_opt, opt_text};
use crate::text::str_eq;
use crate::validation::{
    is_page_code, is_redirect_code, is_redirect_destination, validate_page_code,
    validate_redirect_code, validate_redirect_destination,
};

verus! {

/// A point in time: seconds since the Unix epoch and nanoseconds past them.
#[derive(PartialEq, Eq, Structural, Clone, Copy)]
pub struct Instant {
    pub secs: i64,
    pub nanos: u32,
}

pub open spec fn instant_before(a: Instant, b: Instant) -> bool {
    a.secs < b.secs || (a.secs == b.secs && a.nanos < b.nanos)
}

/// The instant an RFC 3339 timestamp denotes, as chrono's
/// `DateTime::parse_from_rfc3339` reads it; `None` when chrono rejects it.
pub uninterp spec fn rfc3339_instant(s: Seq<char>) -> Option<Instant>;

/// chrono `DateTime::parse_from_rfc3339`, converted to UTC seconds and
/// nanoseconds. The contract names the result; it states nothing more of it.
#[verifier::external_body]
fn parse_rfc3339_instant(s: &str) -> (r: Option<Instant>)
    ensures
        r == rfc3339_instant(s@),
{
    match chrono::DateTime::parse_from_rfc3339(s) {
        Ok(d) => {
            let u = d.with_timezone(&chrono::Utc);
            Some(Instant { secs: u.timestamp(), nanos: u.timestamp_subsec_nanos() })
        },
        Err(_) => None,
    }
}

/// The current time (chrono `Utc::now`). Nothing is promised of the value.
#[verifier::external_body]
fn current_instant() -> (r: Instant) {
    let u = chrono::Utc::now();
    Instant { secs: u.timestamp(), nanos: u.timestamp_subsec_nanos() }
}

/// Whether every byte is one that an HTTP header value may hold: a tab, or
/// any byte from 32 up other than 127.
pub open spec fn header_bytes_ok(bytes: Seq<u8>) -> bool {
    forall|i: int| 0 <= i < bytes.len() ==> (#[trigger] bytes[i] >= 32 && bytes[i] != 127) || bytes[i] == 9
}

/// http `HeaderValue::from_str(s).is_ok()`: the UTF-8 bytes of `s` are all
/// valid header-value bytes (the crate's `is_valid` byte test).
#[verifier::external_body]
fn header_value_accepts(s: &str) -> (r: bool)
    ensures
        r == header_bytes_ok(vstd::utf8::encode_utf8(s@)),
{
    axum::http::HeaderValue::from_str(s).is_ok()
}

pub open spec fn reply_is(r: Reply, status: u16, location: Option<Seq<char>>, body: Seq<char>) -> bool {
    &&& r.status == status
    &&& r.body@ == body
    &&& match location {
        Some(l) => r.location is Some && r.location->0@ == l,
        None => r.location is None,
    }
}

pub(crate) fn reply(status: u16, location: Option<String>, body: &str) -> (r: Reply)
    ensures
        r.status == status,
        r.location == location,
        r.body@ == body@,
{
    Reply { status, location, body: String::from_str(body) }
}

pub(crate) fn bare_reply(status: u16, location: Option<String>) -> (r: Reply)
    ensures
        r.status == status,
        r.location == location,
        r.body@ == Seq::<char>::empty(),
{
    Reply { status, location, body: String::new() }
}

fn path_with(prefix: &str, code: &str) -> (r: String)
    ensures
        r@ == prefix@ + code@,
{
    let mut p = String::from_str(prefix);
    p.append(code);
    p
}

/// The reply for a stored destination: `301` with the destination as
/// `Location` when it passes the destination rules and is a valid header
/// value, `500` otherwise.
pub open spec fn permanent_redirect_spec(destination: Seq<char>, r: Reply) -> bool {
    if is_redirect_destination(destination) && header_bytes_ok(vstd::utf8::encode_utf8(destination)) {
        reply_is(r, 301, Some(destination), Seq::empty())
    } else {
        reply_is(r, 500, None, "Invalid redirect destination"@)
    }
}

/// Builds the permanent redirect to a stored destination, refusing (with 500)
/// destinations that break the rules or cannot be a header value.
pub fn permanent_redirect_to(destination: &str, code: &str) -> (r: Reply)
    ensures
        permanent_redirect_spec(destination@, r),
{
    if !validate_redirect_destination(destination) {
        return reply(500, None, "Invalid redirect destination");
    }
    if header_value_accepts(destination) {
        bare_reply(301, Some(String::from_str(destination)))
    } else {
        reply(500, None, "Invalid redirect destination")
    }
}

/// A `301` from `permanent_redirect_to` only ever carries the destination it
/// was given, and that destination holds no control character: no header can
/// be injected through it.
pub proof fn law_redirect_location_safe(destination: Seq<char>, r: Reply)
    requires
        permanent_redirect_spec(destination, r),
        r.status == 301,
    ensures
        r.location is Some,
        r.location->0@ == destination,
        forall|i: int| 0 <= i < destination.len() ==> (destination[i] as u32) >= 32 && (destination[i] as u32) != 127,
{
    assert forall|i: int| 0 <= i < destination.len() implies (destination[i] as u32) >= 32 && (destination[i] as u32) != 127 by {
        assert(!crate::validation::is_control(destination[i]));
    }
}

/// The path of the password prompt in front of a protected short code.
pub fn gate_path(code: &str) -> (r: String)
    ensures
        r@ == "/gate/"@ + code@,
{
    path_with("/gate/", code)
}

/// The cookie that records an unlocked password prompt for a code.
pub fn gate_cookie_name(code: &str) -> (r: String)
    ensures
        r@ == "bzod_gate_"@ + code@,
{
    path_with("bzod_gate_", code)
}

/// A code is looked up at all only when it has the shape of a short-URL code
/// or of a landing-page code.
pub fn redirect_code_accepted(code: &str) -> (r: bool)
    ensures
        r == (is_redirect_code(code@) || is_page_code(code@)),
{
    validate_redirect_code(code) || validate_page_code(code)
}

/// The first step of a short-link visit.
pub enum EntryStep {
    /// Answer at once: no lookup, no counting, no visit recorded.
    Reply(Reply),
    /// Look the code up in the registry.
    LookupSlug,
}

/// A visit to `/{code}`: a code of neither accepted shape is answered
/// `404 Not Found` before any lookup; any other code is looked up.
pub fn redirect_entry(code: &str) -> (r: EntryStep)
    ensures
        (is_redirect_code(code@) || is_page_code(code@)) ==> r is LookupSlug,
        !(is_redirect_code(code@) || is_page_code(code@)) ==> (r matches EntryStep::Reply(rep) && reply_is(rep, 404, None,
            "Not Found"@)),
{
    if redirect_code_accepted(code) {
        EntryStep::LookupSlug
    } else {
        EntryStep::Reply(reply(404, None, "Not Found"))
    }
}

/// What the registry lookup of a code leads to.
pub enum RedirectStep {
    Reply(Reply),
    /// Load the link from its owner's content database.
    LoadUrl,
}

pub open spec fn redirect_slug_step_spec(code: Seq<char>, info: Option<SlugInfo>, r: RedirectStep) -> bool {
    match info {
        None => r matches RedirectStep::Reply(rep) && reply_is(rep, 404, None, "Not Found"@),
        Some(i) => if i.status@ != "active"@ {
            r matches RedirectStep::Reply(rep) && reply_is(rep, 410, None, "This content has been disabled or moderated"@)
        } else if i.target_type == SlugTargetType::LandingPage {
            r matches RedirectStep::Reply(rep) && reply_is(rep, 308, Some("/p/"@ + code), Seq::empty())
        } else {
            r is LoadUrl
        },
    }
}

/// Decides from the registry entry of a code: unknown codes are not found,
/// inactive ones gone, landing pages redirected to `/p/{code}`.
pub fn redirect_slug_step(code: &str, info: Option<&SlugInfo>) -> (r: RedirectStep)
    ensures
        redirect_slug_step_spec(code@, deref_opt(info), r),
{
    match info {
        None => RedirectStep::Reply(reply(404, None, "Not Found")),
        Some(i) => {
            if !str_eq(i.status.as_str(), "active") {
                RedirectStep::Reply(reply(410, None, "This content has been disabled or moderated"))
            } else if i.target_type == SlugTargetType::LandingPage {
                        RedirectStep::Reply(bare_reply(308, Some(path_with("/p/", code))))
            } else {
                RedirectStep::LoadUrl
            }
        },
    }
}

/// What the checks on a loaded link lead to.
pub enum AccessStep {
    Reply(Reply),
    /// Count the visit and serve the preview or the redirect.
    Serve,
}

pub open spec fn link_expired(url: Url, expiry: Option<Instant>, now: Instant) -> bool {
    url.expired || (url.expires_at is Some && match expiry {
        Some(t) => instant_before(t, now),
        None => false,
    })
}

pub open spec fn url_access_spec(
    code: Seq<char>,
    url: Url,
    expiry: Option<Instant>,
    now: Instant,
    gate_cookie: Option<Seq<char>>,
    r: AccessStep,
) -> bool {
    if link_expired(url, expiry, now) {
        r matches AccessStep::Reply(rep) && reply_is(rep, 410, None, "This link has expired"@)
    } else if access_exhausted(url.max_access_count, url.access_count) {
        r matches AccessStep::Reply(rep) && reply_is(rep, 410, None, "This link has reached its maximum access limit"@)
    } else if url.password_hash is Some && gate_cookie != Some("authorized"@) {
        r matches AccessStep::Reply(rep) && reply_is(rep, 307, Some("/gate/"@ + code), Seq::empty())
    } else {
        r is Serve
    }
}

/// Decides whether a loaded link may be served: expired links (by flag, or by
/// an expiry instant before `now`) and exhausted ones are gone, protected ones
/// go to the password prompt unless the unlock cookie says `authorized`.
/// `expiry` is the parsed `expires_at`; it is ignored when there is none.
pub fn url_access_decision(
    code: &str,
    url: &Url,
    expiry: Option<Instant>,
    now: Instant,
    gate_cookie: Option<&str>,
) -> (r: AccessStep)
    ensures
        url_access_spec(code@, *url, expiry, now, opt_text(gate_cookie), r),
{
    if url.expired {
        return AccessStep::Reply(reply(410, None, "This link has expired"));
    }
    if url.expires_at.is_some() {
        if let Some(t) = expiry {
            if t.secs < now.secs || (t.secs == now.secs && t.nanos < now.nanos) {
                return AccessStep::Reply(reply(410, None, "This link has expired"));
            }
        }
    }
    if url.is_access_exhausted() {
        return AccessStep::Reply(reply(410, None, "This link has reached its maximum access limit"));
    }
    if url.is_password_protected() {
        let authorized = match gate_cookie {
            Some(v) => str_eq(v, "authorized"),
            None => false,
        };
        if !authorized {
                return AccessStep::Reply(bare_reply(307, Some(gate_path(code))));
        }
    }
    AccessStep::Serve
}

/// The expiry instant of a link, read with chrono's RFC 3339 parser.
pub open spec fn expiry_of(url: Url) -> Option<Instant> {
    match url.expires_at {
        Some(s) => rfc3339_instant(s@),
        None => None,
    }
}

/// Parses the link's expiry and decides as `url_access_decision` does.
pub fn url_access_step(code: &str, url: &Url, now: Instant, gate_cookie: Option<&str>) -> (r: AccessStep)
    ensures
        url_access_spec(code@, *url, expiry_of(*url), now, opt_text(gate_cookie), r),
{
    let expiry = match &url.expires_at {
        Some(s) => parse_rfc3339_instant(s.as_str()),
        None => None,
    };
    url_access_decision(code, url, expiry, now, gate_cookie)
}

/// `url_access_step` at the current time.
pub fn url_access_now(code: &str, url: &Url, gate_cookie: Option<&str>) -> (r: AccessStep)
    ensures
        exists|now: Instant| url_access_spec(code@, *url, expiry_of(*url), now, opt_text(gate_cookie), r),
{
    let now = current_instant();
    url_access_step(code, url, now, gate_cookie)
}

/// The status code recorded for a served visit: 200 when a preview page is
/// shown, 302 otherwise.
pub fn visit_status_code(has_preview: bool) -> (r: i64)
    ensures
        r == if has_preview { 200i64 } else { 302i64 },
{
    if has_preview { 200 } else { 302 }
}

/// The password prompt's form.
pub struct PasswordGateForm {
    pub password: String,
}

/// What the password prompt found for a code.
pub enum GateLookup {
    Missing,
    Gone,
    Unprotected,
    Protected(String),
}

pub open spec fn gate_lookup_spec(info: Option<SlugInfo>, url: Option<Url>, r: GateLookup) -> bool {
    match info {
        None => r is Missing,
        Some(i) => if i.status@ != "active"@ {
            r is Gone
        } else {
            match url {
                None => r is Missing,
                Some(u) => match u.password_hash {
                    Some(h) => r matches GateLookup::Protected(x) && x@ == h@,
                    None => r is Unprotected,
                },
            }
        },
    }
}

/// Classifies a password-prompt request from the registry entry and, for active slugs,
/// the link loaded from the owner's database (`None` when it could not be
/// opened or holds no such link).
pub fn gate_lookup(info: Option<&SlugInfo>, url: Option<&Url>) -> (r: GateLookup)
    ensures
        gate_lookup_spec(deref_opt(info), deref_opt(url), r),
{
    match info {
        None => GateLookup::Missing,
        Some(i) => {
            if !str_eq(i.status.as_str(), "active") {
                GateLookup::Gone
            } else {
                match url {
                    None => GateLookup::Missing,
                    Some(u) => match &u.password_hash {
                        Some(h) => GateLookup::Protected(h.clone()),
                        None => GateLookup::Unprotected,
                    },
                }
            }
        },
    }
}

/// The answer to a password submitted at the prompt.
pub enum GateOutcome {
    Reply(Reply),
    /// Set the cookie `cookie_name=authorized` (15 minutes) and redirect (307)
    /// to the code.
    Grant { cookie_name: String, location: String },
    /// Show the password form again with an error.
    Retry { error: String },
}

pub open spec fn gate_outcome_spec(code: Seq<char>, lookup: GateLookup, password_ok: bool, r: GateOutcome) -> bool {
    match lookup {
        GateLookup::Missing => r matches GateOutcome::Reply(rep) && reply_is(rep, 404, None, "Url not found"@),
        GateLookup::Gone => r matches GateOutcome::Reply(rep)
            && reply_is(rep, 410, None, "This content has been disabled or moderated"@),
        GateLookup::Unprotected => r matches GateOutcome::Reply(rep) && reply_is(rep, 307, Some("/"@ + code), Seq::empty()),
        GateLookup::Protected(_) => if password_ok {
            r matches GateOutcome::Grant { cookie_name, location }
                && cookie_name@ == "bzod_gate_"@ + code && location@ == "/"@ + code
        } else {
            r matches GateOutcome::Retry { error } && error@ == "Invalid password"@
        },
    }
}

/// Decides a password submission; `password_ok` is whether the submitted password
/// matched the stored hash (checked only for protected links).
pub fn gate_outcome(code: &str, lookup: GateLookup, password_ok: bool) -> (r: GateOutcome)
    ensures
        gate_outcome_spec(code@, lookup, password_ok, r),
{
    match lookup {
        GateLookup::Missing => GateOutcome::Reply(reply(404, None, "Url not found")),
        GateLookup::Gone => GateOutcome::Reply(reply(410, None, "This content has been disabled or moderated")),
        GateLookup::Unprotected => GateOutcome::Reply(bare_reply(307, Some(path_with("/", code)))),
        GateLookup::Protected(_) => {
            if password_ok {
                GateOutcome::Grant { cookie_name: gate_cookie_name(code), location: path_with("/", code) }
            } else {
                GateOutcome::Retry { error: String::from_str("Invalid password") }
            }
        },
    }
}

/// A password accepted at the prompt unlocks the link: the prompt sets the cookie
/// the redirect looks for, with the value it accepts, so a protected link that
/// is neither expired nor exhausted is then served.
pub proof fn law_gate_unlocks(
    code: Seq<char>,
    hash: String,
    url: Url,
    expiry: Option<Instant>,
    now: Instant,
    g: GateOutcome,
    a: AccessStep,
)
    requires
        gate_outcome_spec(code, GateLookup::Protected(hash), true, g),
        url_access_spec(code, url, expiry, now, Some("authorized"@), a),
        !link_expired(url, expiry, now),
        !access_exhausted(url.max_access_count, url.access_count),
    ensures
        g matches GateOutcome::Grant { cookie_name, location } && cookie_name@ == "bzod_gate_"@ + code,
        a is Serve,
{
}

/// What the registry lookup of a landing-page code leads to.
pub enum PageStep {
    Reply(Reply),
    /// Load the page from its owner's content database.
    LoadPage,
}

pub open spec fn page_slug_step_spec(info: Option<SlugInfo>, r: PageStep) -> bool {
    match info {
        None => r matches PageStep::Reply(rep) && reply_is(rep, 404, None, "Not Found"@),
        Some(i) => if i.status@ != "active"@ {
            r matches PageStep::Reply(rep) && reply_is(rep, 410, None, "This content has been disabled or moderated"@)
        } else {
            r is LoadPage
        },
    }
}

pub fn page_code_accepted(code: &str) -> (r: bool)
    ensures
        r == is_page_code(code@),
{
    validate_page_code(code)
}

pub fn page_slug_step(info: Option<&SlugInfo>) -> (r: PageStep)
    ensures
        page_slug_step_spec(deref_opt(info), r),
{
    match info {
        None => PageStep::Reply(reply(404, None, "Not Found")),
        Some(i) => {
            if !str_eq(i.status.as_str(), "active") {
                PageStep::Reply(reply(410, None, "This content has been disabled or moderated"))
            } else {
                PageStep::LoadPage
            }
        },
    }
}

/// Whether a loaded landing page may be rendered: a missing page is not
/// found, an archived one is gone. `None` means render it.
pub fn page_state_reply(state: Option<&str>) -> (r: Option<Reply>)
    ensures
        match state {
            None => r matches Some(rep) && reply_is(rep, 404, None, "Landing page not found"@),
            Some(s) => if s@ == "archived"@ {
                r matches Some(rep) && reply_is(rep, 410, None, "This landing page has been archived"@)
            } else {
                r is None
            },
        },
{
    match state {
        None => Some(reply(404, None, "Landing page not found")),
        Some(s) => {
            if str_eq(s, "archived") {
                Some(reply(410, None, "This landing page has been archived"))
            } else {
                None
            }
        },
    }
}

/// A request header as a visit records it: the header's text, or the
/// given default (`Unknown` for agent and language, `Direct` for referrer).
pub fn header_or(value: Option<&str>, default: &str) -> (r: String)
    ensures
        match value {
            Some(v) => r@ == v@,
            None => r@ == default@,
        },
{
    match value {
        Some(v) => String::from_str(v),
        None => String::from_str(default),
    }
}

/// The owner of a landing page as a visit records it: the tenant id when it
/// reads as a number.
pub fn page_visit_owner(owner_tenant_id: &str) -> (r: Option<i64>)
    ensures
        r == crate::text::parse_i64_text(owner_tenant_id@),
{
    crate::text::parse_i64(owner_tenant_id)
}

/// The owner of a short code as the redirect path records it: the tenant id
/// when it reads as a number, else 0.
pub fn redirect_owner_id(owner_tenant_id: &str) -> (r: i64)
    ensures
        r == match crate::text::parse_i64_text(owner_tenant_id@) {
            Some(n) => n,
            None => 0,
        },
{
    match crate::text::parse_i64(owner_tenant_id) {
        Some(n) => n,
        None => 0,
    }
}

/// The reply when the owner's database has no link under an active code.
pub fn short_code_missing() -> (r: Reply)
    ensures
        reply_is(r, 404, None, "Short code not found"@),
{
    reply(404, None, "Short code not found")
}

/// The reply to a storage failure on the public paths; the details are only
/// logged.
pub fn database_error_reply() -> (r: Reply)
    ensures
        reply_is(r, 500, None, "Database error"@),
{
    reply(500, None, "Database error")
}

/// The access count after a visit: the stored counter's new value, or one
/// more than the count read before when the increment failed.
pub fn next_access_count(incremented: Option<i64>, fallback_access_count: i64) -> (r: i64)
    requires
        incremented is None ==> fallback_access_count < i64::MAX,
    ensures
        r == match incremented {
            Some(n) => n as int,
            None => fallback_access_count + 1,
        },
{
    match incremented {
        Some(n) => n,
        None => fallback_access_count + 1,
    }
}

/// A link is only ever served when it is neither expired nor used up, and a
/// protected link only to a visitor whose unlock cookie says `authorized`.
pub proof fn law_served_links_are_live(
    code: Seq<char>,
    url: Url,
    expiry: Option<Instant>,
    now: Instant,
    gate_cookie: Option<Seq<char>>,
    r: AccessStep,
)
    requires
        url_access_spec(code, url, expiry, now, gate_cookie, r),
        r is Serve,
    ensures
        !url.expired,
        !access_exhausted(url.max_access_count, url.access_count),
        url.expires_at is Some ==> (expiry matches Some(t) ==> !instant_before(t, now)),
        url.password_hash is Some ==> gate_cookie == Some("authorized"@),
{
}

} // verus!
