//! Creating a short link from the user's link form: the checks, the
//! reservation of the code in the global registry, and the release of that
//! reservation when a later step fails. Each step takes the state and what
//! the last outside operation answered, and says what to do next.

use vstd::prelude::*;
use vstd::string::*;
use crate::auth::{audit_event_metadata, debug_opt_text};
use crate::links::{
    choose_form_code, expires_at_input, form_code_choice, form_code_problem, form_password, form_tags,
    max_access_input, optional_field, optional_text, parse_expires_at_input, parse_max_access_count,
    tags_input, user_links_error_location, user_slug_message, CodeChoice, CreateUserUrlForm,
};
use crate::models::{audit_is, audit_plan, opt_string, Reply, AuditPlan};
use crate::redirect::reply;
use crate::text::{join_text, texts, trimmed};

verus! {

/// What the request brings and who it acts for; the same at every step.
pub struct UserUrlCtx {
    /// Whether the form's CSRF token is valid for the session.
    pub csrf_ok: bool,
    pub user_id: i64,
    /// The account's tenant id (a fresh one when it has none).
    pub tenant: String,
    /// A random code, used when the form asks for none.
    pub generated_code: String,
    pub form: CreateUserUrlForm,
    pub username: String,
    pub ip: String,
    pub user_agent: Option<String>,
}

pub enum UserUrlState {
    Begin,
    AwaitTenant,
    AwaitQuota { code: String },
    AwaitReserve { code: String },
    AwaitDestination { code: String },
    AwaitPassword { code: String, dest: String },
    AwaitStore { code: String },
    Done,
}

pub enum UserUrlEvent {
    Start,
    TenantOpened(bool),
    QuotaChecked(bool),
    Reserved(Result<(), String>),
    DestinationPrepared(Result<String, String>),
    PasswordHashed(Result<String, String>),
    Stored(Result<String, String>),
}

/// The link to store.
pub struct NewLink {
    pub code: String,
    pub dest: String,
    pub title: Option<String>,
    pub description: Option<String>,
    pub tags: Vec<String>,
    pub expires_at: Option<String>,
    pub password_hash: Option<String>,
    pub max_access_count: Option<i64>,
}

pub enum UserUrlAction {
    OpenTenant { user_id: i64 },
    CheckQuota { user_id: i64 },
    ReserveSlug { code: String, tenant: String },
    PrepareDestination,
    HashPassword { password: String },
    StoreLink(NewLink),
    /// Answer with this reply; nothing was reserved.
    Fail(Reply),
    /// Redirect back to the form with an error; nothing was reserved.
    Redirect(String),
    /// Release the reservation, then redirect back with the error.
    ReleaseThenRedirect { code: String, tenant: String, location: String },
    /// Activate the code, count the link, write the audit event, redirect to
    /// the list.
    Complete { code: String, url_id: String, user_id: i64, audit: AuditPlan, location: String },
    Ignore,
}

/// A `See Other` to the form with the error message.
pub open spec fn redirects_with(r: (UserUrlState, UserUrlAction), message: Seq<char>) -> bool {
    r.0 is Done && (r.1 matches UserUrlAction::Redirect(l) && l@ == "/user/urls?error="@ + message)
}

/// Release the code, then a `See Other` to the form with the error message.
pub open spec fn releases_with(ctx: UserUrlCtx, code: Seq<char>, r: (UserUrlState, UserUrlAction), message: Seq<char>) -> bool {
    r.0 is Done && (r.1 matches UserUrlAction::ReleaseThenRedirect { code: c, tenant, location }
        && c@ == code && tenant@ == ctx.tenant@ && location@ == "/user/urls?error="@ + message)
}

/// The link that the form describes.
pub open spec fn link_is(l: NewLink, ctx: UserUrlCtx, code: Seq<char>, dest: Seq<char>, password_hash: Option<Seq<char>>, max: Option<i64>) -> bool {
    &&& l.code@ == code
    &&& l.dest@ == dest
    &&& opt_string(l.title) == optional_field(ctx.form.title@)
    &&& opt_string(l.description) == optional_field(ctx.form.description@)
    &&& texts(l.tags@) == tags_input(ctx.form.tags@)
    &&& opt_string(l.expires_at) == expires_at_input(ctx.form.expires_at@)
    &&& opt_string(l.password_hash) == password_hash
    &&& l.max_access_count == max
}

/// After the password question: the access limit must read, then the link
/// is stored.
pub open spec fn store_step_ok(ctx: UserUrlCtx, code: Seq<char>, dest: Seq<char>, password_hash: Option<Seq<char>>, r: (
    UserUrlState,
    UserUrlAction,
)) -> bool {
    match max_access_input(ctx.form.max_access_count@) {
        Err(()) => releases_with(ctx, code, r, "Invalid max access count"@),
        Ok(m) => (r.0 matches UserUrlState::AwaitStore { code: c } && c@ == code)
            && (r.1 matches UserUrlAction::StoreLink(l) && link_is(l, ctx, code, dest, password_hash, m)),
    }
}

fn redirect_with(message: &str) -> (r: (UserUrlState, UserUrlAction))
    ensures
        redirects_with(r, message@),
{
    (UserUrlState::Done, UserUrlAction::Redirect(user_links_error_location(message)))
}

fn release_with(ctx: &UserUrlCtx, code: String, message: &str) -> (r: (UserUrlState, UserUrlAction))
    ensures
        releases_with(*ctx, code@, r, message@),
{
    (
        UserUrlState::Done,
        UserUrlAction::ReleaseThenRedirect {
            code,
            tenant: ctx.tenant.clone(),
            location: user_links_error_location(message),
        },
    )
}

fn store_step(ctx: &UserUrlCtx, code: String, dest: String, password_hash: Option<String>) -> (r: (
    UserUrlState,
    UserUrlAction,
))
    ensures
        store_step_ok(*ctx, code@, dest@, opt_string(password_hash), r),
{
    match parse_max_access_count(ctx.form.max_access_count.as_str()) {
        Err(m) => release_with(ctx, code, m),
        Ok(max) => {
            let link = NewLink {
                code: code.clone(),
                dest,
                title: optional_text(ctx.form.title.as_str()),
                description: optional_text(ctx.form.description.as_str()),
                tags: form_tags(ctx.form.tags.as_str()),
                expires_at: parse_expires_at_input(ctx.form.expires_at.as_str()),
                password_hash,
                max_access_count: max,
            };
            (UserUrlState::AwaitStore { code }, UserUrlAction::StoreLink(link))
        },
    }
}

/// One step of link creation from the user's form.
///
/// Before anything is reserved: a bad CSRF token redirects back, databases
/// that do not open give `500 Database error`, a refused code redirects back
/// with its message, an account over quota redirects back. A refused
/// reservation redirects back. Once the code is reserved, every failure (a
/// destination that does not prepare, a password that does not hash, an
/// access limit that does not read, storage) releases it before redirecting
/// back; a stored link activates the code, counts against the quota, is
/// audited, and the list is shown.
pub fn user_url_step(state: UserUrlState, event: UserUrlEvent, ctx: &UserUrlCtx) -> (r: (UserUrlState, UserUrlAction))
    ensures
        // the order of the checks
        r.1 is ReserveSlug ==> state is AwaitQuota && event == UserUrlEvent::QuotaChecked(true),
        r.1 !is Ignore && r.0 is AwaitQuota ==> state is AwaitTenant && event == UserUrlEvent::TenantOpened(true),
        r.1 !is Ignore && r.0 is AwaitTenant ==> state is Begin && event is Start && ctx.csrf_ok,
        r.1 is Ignore ==> r.0 == state,
        // after a reservation, a failure always releases it
        (state is AwaitDestination || state is AwaitPassword || state is AwaitStore) && r.1 !is Ignore
            ==> r.1 is ReleaseThenRedirect || r.1 is StoreLink || r.1 is HashPassword || r.1 is Complete,
        r.1 is ReleaseThenRedirect ==> state is AwaitDestination || state is AwaitPassword || state is AwaitStore,
        // each transition
        state is Begin && event is Start ==> if ctx.csrf_ok {
            r.0 is AwaitTenant && r.1 == UserUrlAction::OpenTenant { user_id: ctx.user_id }
        } else {
            redirects_with(r, "Invalid CSRF token"@)
        },
        state is AwaitTenant ==> match event {
            UserUrlEvent::TenantOpened(false) => r.0 is Done && (r.1 matches UserUrlAction::Fail(f) && f.status == 500
                && f.location is None && f.body@ == "Database error"@),
            UserUrlEvent::TenantOpened(true) => match form_code_problem(ctx.form.custom_slug@, ctx.form.code@, 6,
                "Custom slug must start with ! followed by 1-24 a-z, 0-9, -, _"@) {
                Some(m) => redirects_with(r, m),
                None => (r.0 matches UserUrlState::AwaitQuota { code } && (form_code_choice(
                    ctx.form.custom_slug@, ctx.form.code@, CodeChoice::Generate) ==> code@ == ctx.generated_code@)
                    && (!form_code_choice(ctx.form.custom_slug@, ctx.form.code@, CodeChoice::Generate)
                        ==> form_code_choice(ctx.form.custom_slug@, ctx.form.code@, CodeChoice::Chosen(code))))
                    && r.1 == UserUrlAction::CheckQuota { user_id: ctx.user_id },
            },
            _ => r.1 is Ignore,
        },
        state matches UserUrlState::AwaitQuota { code } ==> match event {
            UserUrlEvent::QuotaChecked(false) => redirects_with(r, "Quota limit exceeded"@),
            UserUrlEvent::QuotaChecked(true) => (r.0 matches UserUrlState::AwaitReserve { code: c } && c@ == code@)
                && (r.1 matches UserUrlAction::ReserveSlug { code: c, tenant } && c@ == code@ && tenant@ == ctx.tenant@),
            _ => r.1 is Ignore,
        },
        state matches UserUrlState::AwaitReserve { code } ==> match event {
            UserUrlEvent::Reserved(Err(e)) => redirects_with(r, "Short code/slug unavailable: "@ + e@),
            UserUrlEvent::Reserved(Ok(())) => (r.0 matches UserUrlState::AwaitDestination { code: c } && c@ == code@)
                && r.1 is PrepareDestination,
            _ => r.1 is Ignore,
        },
        state matches UserUrlState::AwaitDestination { code } ==> match event {
            UserUrlEvent::DestinationPrepared(Err(m)) => releases_with(*ctx, code@, r, m@),
            UserUrlEvent::DestinationPrepared(Ok(d)) => if trimmed(ctx.form.password@).len() != 0 {
                (r.0 matches UserUrlState::AwaitPassword { code: c, dest } && c@ == code@ && dest@ == d@)
                    && (r.1 matches UserUrlAction::HashPassword { password } && password@ == ctx.form.password@)
            } else {
                store_step_ok(*ctx, code@, d@, None, r)
            },
            _ => r.1 is Ignore,
        },
        state matches UserUrlState::AwaitPassword { code, dest } ==> match event {
            UserUrlEvent::PasswordHashed(Err(_)) => releases_with(*ctx, code@, r, "Hashing error"@),
            UserUrlEvent::PasswordHashed(Ok(h)) => store_step_ok(*ctx, code@, dest@, Some(h@), r),
            _ => r.1 is Ignore,
        },
        state matches UserUrlState::AwaitStore { code } ==> match event {
            UserUrlEvent::Stored(Err(e)) => releases_with(*ctx, code@, r, "Database error: "@ + e@),
            UserUrlEvent::Stored(Ok(id)) => r.0 is Done && (r.1 matches UserUrlAction::Complete {
                code: c,
                url_id,
                user_id,
                audit,
                location,
            } && c@ == code@ && url_id@ == id@ && user_id == ctx.user_id && location@ == "/user/urls"@
                && audit_is(audit, ctx.username@, "USER_URL_CREATION"@, "url"@, id@, Some(
                "IP: "@ + debug_opt_text(Some(ctx.ip@)) + ", UA: "@ + debug_opt_text(opt_string(ctx.user_agent)),
            ))),
            _ => r.1 is Ignore,
        },
        state is Done ==> r.1 is Ignore,
{
    match state {
        UserUrlState::Begin => match event {
            UserUrlEvent::Start => if ctx.csrf_ok {
                (UserUrlState::AwaitTenant, UserUrlAction::OpenTenant { user_id: ctx.user_id })
            } else {
                redirect_with("Invalid CSRF token")
            },
            _ => (UserUrlState::Begin, UserUrlAction::Ignore),
        },
        UserUrlState::AwaitTenant => match event {
            UserUrlEvent::TenantOpened(false) => (
                UserUrlState::Done,
                UserUrlAction::Fail(reply(500, None, "Database error")),
            ),
            UserUrlEvent::TenantOpened(true) => match choose_form_code(
                ctx.form.custom_slug.as_str(),
                ctx.form.code.as_str(),
                6,
                user_slug_message(),
            ) {
                Err(m) => redirect_with(m.as_str()),
                Ok(CodeChoice::Generate) => (
                    UserUrlState::AwaitQuota { code: ctx.generated_code.clone() },
                    UserUrlAction::CheckQuota { user_id: ctx.user_id },
                ),
                Ok(CodeChoice::Chosen(c)) => (
                    UserUrlState::AwaitQuota { code: c },
                    UserUrlAction::CheckQuota { user_id: ctx.user_id },
                ),
            },
            _ => (UserUrlState::AwaitTenant, UserUrlAction::Ignore),
        },
        UserUrlState::AwaitQuota { code } => match event {
            UserUrlEvent::QuotaChecked(false) => redirect_with("Quota limit exceeded"),
            UserUrlEvent::QuotaChecked(true) => {
                let rc = code.clone();
                (
                    UserUrlState::AwaitReserve { code },
                    UserUrlAction::ReserveSlug { code: rc, tenant: ctx.tenant.clone() },
                )
            },
            _ => (UserUrlState::AwaitQuota { code }, UserUrlAction::Ignore),
        },
        UserUrlState::AwaitReserve { code } => match event {
            UserUrlEvent::Reserved(Err(e)) => {
                let m = join_text("Short code/slug unavailable: ", e.as_str());
                redirect_with(m.as_str())
            },
            UserUrlEvent::Reserved(Ok(())) => (UserUrlState::AwaitDestination { code }, UserUrlAction::PrepareDestination),
            _ => (UserUrlState::AwaitReserve { code }, UserUrlAction::Ignore),
        },
        UserUrlState::AwaitDestination { code } => match event {
            UserUrlEvent::DestinationPrepared(Err(m)) => release_with(ctx, code, m.as_str()),
            UserUrlEvent::DestinationPrepared(Ok(d)) => match form_password(ctx.form.password.as_str()) {
                Some(p) => (
                    UserUrlState::AwaitPassword { code, dest: d },
                    UserUrlAction::HashPassword { password: String::from_str(p) },
                ),
                None => store_step(ctx, code, d, None),
            },
            _ => (UserUrlState::AwaitDestination { code }, UserUrlAction::Ignore),
        },
        UserUrlState::AwaitPassword { code, dest } => match event {
            UserUrlEvent::PasswordHashed(Err(_)) => release_with(ctx, code, "Hashing error"),
            UserUrlEvent::PasswordHashed(Ok(h)) => store_step(ctx, code, dest, Some(h)),
            _ => (UserUrlState::AwaitPassword { code, dest }, UserUrlAction::Ignore),
        },
        UserUrlState::AwaitStore { code } => match event {
            UserUrlEvent::Stored(Err(e)) => {
                let m = join_text("Database error: ", e.as_str());
                release_with(ctx, code, m.as_str())
            },
            UserUrlEvent::Stored(Ok(id)) => {
                let ua = match &ctx.user_agent {
                    Some(s) => Some(s.as_str()),
                    None => None,
                };
                let meta = audit_event_metadata(Some(ctx.ip.as_str()), ua);
                let audit = audit_plan(ctx.username.as_str(), "USER_URL_CREATION", "url", id.as_str(), Some(meta));
                (
                    UserUrlState::Done,
                    UserUrlAction::Complete {
                        code,
                        url_id: id,
                        user_id: ctx.user_id,
                        audit,
                        location: String::from_str("/user/urls"),
                    },
                )
            },
            _ => (UserUrlState::AwaitStore { code }, UserUrlAction::Ignore),
        },
        UserUrlState::Done => (UserUrlState::Done, UserUrlAction::Ignore),
    }
}

} // verus!
