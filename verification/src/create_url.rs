//! Creating a short link through the API: the checks that come before the
//! code is reserved in the global registry, and what happens to the
//! reservation afterwards. Each step takes the state and what the last
//! outside operation answered, and says what to do next.

use vstd::prelude::*;
use vstd::string::*;
use crate::api::{
    api_failure, choose_url_code, code_unavailable_failure, create_url_admin_message, failure_is, hashing_failure,
    password_to_set, quota_exceeded_failure, request_audit_detail, requested_code, ApiFailure,
};
use crate::auth::debug_opt_text;
use crate::links::CodeChoice;
use crate::models::{audit_is, audit_plan, opt_string, opt_text, AuditPlan};
use crate::text::debug_text;
use crate::validation::is_redirect_code;

verus! {

/// What the request brings and who it acts for; the same at every step.
pub struct CreateUrlCtx {
    /// The code asked for, if any.
    pub requested_code: Option<String>,
    /// A random code, used when none was asked for.
    pub generated_code: String,
    /// The password asked for, if any.
    pub password: Option<String>,
    /// The account and tenant the link is created for; `None` for an admin
    /// key.
    pub owner: Option<(i64, String)>,
    pub username: String,
    pub ip: String,
    pub user_agent: Option<String>,
}

/// How far the creation has got.
pub enum CreateUrlState {
    Begin,
    AwaitDestination { code: String },
    AwaitPassword { code: String, dest: String },
    AwaitTenant { code: String, dest: String, password_hash: Option<String> },
    AwaitQuota { code: String, dest: String, password_hash: Option<String> },
    AwaitReserve { code: String, dest: String, password_hash: Option<String>, user_id: i64, tenant: String },
    AwaitStore { code: String, user_id: i64, tenant: String },
    Done,
}

/// What the last outside operation answered.
pub enum CreateUrlEvent {
    Start,
    DestinationPrepared(Result<String, String>),
    PasswordHashed(Result<String, String>),
    TenantOpened(bool),
    QuotaChecked(bool),
    Reserved(Result<(), String>),
    Stored(Result<String, String>),
}

/// What to do next.
pub enum CreateUrlAction {
    /// Prepare the destination (with the UTM parameters).
    PrepareDestination,
    /// Hash the password.
    HashPassword { password: String },
    /// Open the account's databases.
    OpenTenant { user_id: i64 },
    /// Read whether the account is under its link quota.
    CheckQuota { user_id: i64 },
    /// Reserve the code for the tenant in the global registry.
    ReserveSlug { code: String, tenant: String },
    /// Store the link in the account's content database.
    StoreLink { code: String, dest: String, password_hash: Option<String> },
    /// Answer with the failure; nothing was reserved.
    Reply(ApiFailure),
    /// Release the reservation, then answer with the failure.
    ReleaseThenReply { code: String, tenant: String, failure: ApiFailure },
    /// Activate the code for the stored link, count it against the quota,
    /// write the audit event and answer with the link.
    Complete { code: String, url_id: String, user_id: i64, audit: AuditPlan, status: u16 },
    /// The event does not belong to this state: nothing to do.
    Ignore,
}

/// The password to set: a non-empty one asked for.
pub open spec fn password_to_set_text(o: Option<Seq<char>>) -> Option<Seq<char>> {
    match o {
        Some(p) => if p.len() == 0 { None } else { Some(p) },
        None => None,
    }
}

/// The audit detail of a link event.
pub open spec fn link_audit_detail(ip: Seq<char>, user_agent: Option<Seq<char>>) -> Seq<char> {
    "IP: "@ + debug_text(ip) + ", User-Agent: "@ + debug_opt_text(user_agent)
}

/// The step once the password question is settled: an admin key is
/// refused, an account's databases are opened.
pub open spec fn tenant_step_ok(
    ctx: CreateUrlCtx,
    code: Seq<char>,
    dest: Seq<char>,
    password_hash: Option<Seq<char>>,
    r: (CreateUrlState, CreateUrlAction),
) -> bool {
    match ctx.owner {
        None => r.0 is Done && (r.1 matches CreateUrlAction::Reply(f) && failure_is(f, 400,
            "Admin is a platform operator and cannot create application URLs directly without tenant context"@)),
        Some((uid, _)) => r.0 matches CreateUrlState::AwaitTenant { code: c, dest: d, password_hash: h }
            && c@ == code && d@ == dest && opt_string(h) == password_hash
            && r.1 == CreateUrlAction::OpenTenant { user_id: uid },
    }
}

fn as_text(o: &Option<String>) -> (r: Option<&str>)
    ensures
        opt_text(r) == opt_string(*o),
{
    match o {
        Some(s) => Some(s.as_str()),
        None => None,
    }
}

fn tenant_step(ctx: &CreateUrlCtx, code: String, dest: String, password_hash: Option<String>) -> (r: (
    CreateUrlState,
    CreateUrlAction,
))
    ensures
        tenant_step_ok(*ctx, code@, dest@, opt_string(password_hash), r),
{
    match &ctx.owner {
        None => (CreateUrlState::Done, CreateUrlAction::Reply(api_failure(400, create_url_admin_message()))),
        Some((uid, _)) => (
            CreateUrlState::AwaitTenant { code, dest, password_hash },
            CreateUrlAction::OpenTenant { user_id: *uid },
        ),
    }
}

/// One step of link creation through the API.
///
/// Before anything is reserved: an unacceptable code is refused with `400`,
/// a destination that does not prepare with `400` and its message, a
/// password that does not hash with `500`, an admin key with `400`, an
/// account whose databases do not open with `500 Database error`, an
/// account over quota with `403`. Only after all of these does the code get
/// reserved; a refused reservation is `409`. Once reserved, a storage
/// failure releases the code before the `500`; a stored link activates the
/// code, counts against the quota, is audited and answered `201`.
pub fn create_url_step(state: CreateUrlState, event: CreateUrlEvent, ctx: &CreateUrlCtx) -> (r: (
    CreateUrlState,
    CreateUrlAction,
))
    ensures
        // the order of the checks
        r.1 is ReserveSlug ==> state is AwaitQuota && event == CreateUrlEvent::QuotaChecked(true),
        r.1 !is Ignore && r.0 is AwaitQuota ==> state is AwaitTenant && event == CreateUrlEvent::TenantOpened(true),
        r.1 !is Ignore && r.0 is AwaitTenant ==> (state is AwaitDestination && (event matches CreateUrlEvent::DestinationPrepared(Ok(_))
            && password_to_set_text(opt_string(ctx.password)) is None))
            || (state is AwaitPassword && event matches CreateUrlEvent::PasswordHashed(Ok(_))),
        r.1 !is Ignore && r.0 is AwaitDestination ==> state is Begin && event is Start,
        r.1 is Ignore ==> r.0 == state,
        r.1 is ReleaseThenReply ==> state is AwaitStore,
        // once the code is reserved, no answer leaves the reservation behind
        state is AwaitStore ==> !(r.1 is Reply),
        r.1 is Complete ==> state is AwaitStore,
        // each transition
        state is Begin && event is Start ==> ({
            let c = requested_code(opt_string(ctx.requested_code));
            if c.len() == 0 {
                r.0 matches CreateUrlState::AwaitDestination { code } && code@ == ctx.generated_code@
                    && r.1 is PrepareDestination
            } else if is_redirect_code(c) {
                r.0 matches CreateUrlState::AwaitDestination { code } && code@ == c && r.1 is PrepareDestination
            } else {
                r.0 is Done && (r.1 matches CreateUrlAction::Reply(f) && failure_is(f, 400,
                    "Short code must be 6 hex characters or a custom slug starting with !"@))
            }
        }),
        state matches CreateUrlState::AwaitDestination { code } ==> match event {
            CreateUrlEvent::DestinationPrepared(Err(m)) => r.0 is Done && (r.1 matches CreateUrlAction::Reply(f)
                && failure_is(f, 400, m@)),
            CreateUrlEvent::DestinationPrepared(Ok(d)) => match password_to_set_text(opt_string(ctx.password)) {
                Some(p) => r.0 matches CreateUrlState::AwaitPassword { code: c, dest } && c@ == code@ && dest@ == d@
                    && (r.1 matches CreateUrlAction::HashPassword { password } && password@ == p),
                None => tenant_step_ok(*ctx, code@, d@, None, r),
            },
            _ => r.1 is Ignore,
        },
        state matches CreateUrlState::AwaitPassword { code, dest } ==> match event {
            CreateUrlEvent::PasswordHashed(Err(e)) => r.0 is Done && (r.1 matches CreateUrlAction::Reply(f)
                && failure_is(f, 500, "Password hashing error: "@ + e@)),
            CreateUrlEvent::PasswordHashed(Ok(h)) => tenant_step_ok(*ctx, code@, dest@, Some(h@), r),
            _ => r.1 is Ignore,
        },
        state matches CreateUrlState::AwaitTenant { code, dest, password_hash } ==> match event {
            CreateUrlEvent::TenantOpened(false) => r.0 is Done && (r.1 matches CreateUrlAction::Reply(f)
                && failure_is(f, 500, "Database error"@)),
            CreateUrlEvent::TenantOpened(true) => match ctx.owner {
                Some((uid, _)) => r.0 matches CreateUrlState::AwaitQuota { code: c, dest: d, password_hash: h }
                    && c@ == code@ && d@ == dest@ && opt_string(h) == opt_string(password_hash)
                    && r.1 == CreateUrlAction::CheckQuota { user_id: uid },
                None => r.0 is Done && r.1 is Reply,
            },
            _ => r.1 is Ignore,
        },
        state matches CreateUrlState::AwaitQuota { code, dest, password_hash } ==> match event {
            CreateUrlEvent::QuotaChecked(false) => r.0 is Done && (r.1 matches CreateUrlAction::Reply(f)
                && failure_is(f, 403, "Quota limit exceeded"@)),
            CreateUrlEvent::QuotaChecked(true) => match ctx.owner {
                Some((uid, tenant)) => r.0 matches CreateUrlState::AwaitReserve { code: c, dest: d, password_hash: h, user_id: u, tenant: tt }
                    && c@ == code@ && d@ == dest@ && opt_string(h) == opt_string(password_hash) && u == uid && tt@ == tenant@
                    && (r.1 matches CreateUrlAction::ReserveSlug { code: rc, tenant: t } && rc@ == code@ && t@ == tenant@),
                None => r.0 is Done && r.1 is Reply,
            },
            _ => r.1 is Ignore,
        },
        state matches CreateUrlState::AwaitReserve { code, dest, password_hash, user_id, tenant } ==> match event {
            CreateUrlEvent::Reserved(Err(e)) => r.0 is Done && (r.1 matches CreateUrlAction::Reply(f)
                && failure_is(f, 409, "Short code unavailable: "@ + e@)),
            CreateUrlEvent::Reserved(Ok(())) => r.0 matches CreateUrlState::AwaitStore { code: c, user_id: u, tenant: tt }
                && c@ == code@ && u == user_id && tt == tenant
                && (r.1 matches CreateUrlAction::StoreLink { code: sc, dest: d, password_hash: h }
                && sc@ == code@ && d@ == dest@ && opt_string(h) == opt_string(password_hash)),
            _ => r.1 is Ignore,
        },
        state matches CreateUrlState::AwaitStore { code, user_id, tenant } ==> match event {
            CreateUrlEvent::Stored(Err(e)) => r.0 is Done && (r.1 matches CreateUrlAction::ReleaseThenReply {
                code: c,
                tenant: t,
                failure,
            } && c@ == code@ && t@ == tenant@ && failure.status == 500 && failure.body.error@ == e@),
            CreateUrlEvent::Stored(Ok(id)) => r.0 is Done && (r.1 matches CreateUrlAction::Complete {
                code: c,
                url_id,
                user_id: u,
                audit,
                status,
            } && c@ == code@ && url_id@ == id@ && u == user_id && status == 201 && audit_is(audit, ctx.username@,
                "URL_CREATION"@, "url"@, id@, Some(link_audit_detail(ctx.ip@, opt_string(ctx.user_agent))))),
            _ => r.1 is Ignore,
        },
        state is Done ==> r.1 is Ignore,
{
    match state {
        CreateUrlState::Begin => match event {
            CreateUrlEvent::Start => match choose_url_code(as_text(&ctx.requested_code)) {
                Err(f) => (CreateUrlState::Done, CreateUrlAction::Reply(f)),
                Ok(CodeChoice::Generate) => (
                    CreateUrlState::AwaitDestination { code: ctx.generated_code.clone() },
                    CreateUrlAction::PrepareDestination,
                ),
                Ok(CodeChoice::Chosen(c)) => (
                    CreateUrlState::AwaitDestination { code: c },
                    CreateUrlAction::PrepareDestination,
                ),
            },
            _ => (CreateUrlState::Begin, CreateUrlAction::Ignore),
        },
        CreateUrlState::AwaitDestination { code } => match event {
            CreateUrlEvent::DestinationPrepared(Err(m)) => (
                CreateUrlState::Done,
                CreateUrlAction::Reply(api_failure(400, m.as_str())),
            ),
            CreateUrlEvent::DestinationPrepared(Ok(d)) => match password_to_set(as_text(&ctx.password)) {
                Some(p) => (
                    CreateUrlState::AwaitPassword { code, dest: d },
                    CreateUrlAction::HashPassword { password: String::from_str(p) },
                ),
                None => tenant_step(ctx, code, d, None),
            },
            _ => (CreateUrlState::AwaitDestination { code }, CreateUrlAction::Ignore),
        },
        CreateUrlState::AwaitPassword { code, dest } => match event {
            CreateUrlEvent::PasswordHashed(Err(e)) => (
                CreateUrlState::Done,
                CreateUrlAction::Reply(hashing_failure(e.as_str())),
            ),
            CreateUrlEvent::PasswordHashed(Ok(h)) => tenant_step(ctx, code, dest, Some(h)),
            _ => (CreateUrlState::AwaitPassword { code, dest }, CreateUrlAction::Ignore),
        },
        CreateUrlState::AwaitTenant { code, dest, password_hash } => match event {
            CreateUrlEvent::TenantOpened(false) => (
                CreateUrlState::Done,
                CreateUrlAction::Reply(api_failure(500, "Database error")),
            ),
            CreateUrlEvent::TenantOpened(true) => match &ctx.owner {
                Some((uid, _)) => (
                    CreateUrlState::AwaitQuota { code, dest, password_hash },
                    CreateUrlAction::CheckQuota { user_id: *uid },
                ),
                None => (CreateUrlState::Done, CreateUrlAction::Reply(api_failure(400, create_url_admin_message()))),
            },
            _ => (CreateUrlState::AwaitTenant { code, dest, password_hash }, CreateUrlAction::Ignore),
        },
        CreateUrlState::AwaitQuota { code, dest, password_hash } => match event {
            CreateUrlEvent::QuotaChecked(false) => (CreateUrlState::Done, CreateUrlAction::Reply(quota_exceeded_failure())),
            CreateUrlEvent::QuotaChecked(true) => match &ctx.owner {
                Some((uid, tenant)) => {
                    let rc = code.clone();
                    (
                        CreateUrlState::AwaitReserve { code, dest, password_hash, user_id: *uid, tenant: tenant.clone() },
                        CreateUrlAction::ReserveSlug { code: rc, tenant: tenant.clone() },
                    )
                },
                None => (CreateUrlState::Done, CreateUrlAction::Reply(api_failure(400, create_url_admin_message()))),
            },
            _ => (CreateUrlState::AwaitQuota { code, dest, password_hash }, CreateUrlAction::Ignore),
        },
        CreateUrlState::AwaitReserve { code, dest, password_hash, user_id, tenant } => match event {
            CreateUrlEvent::Reserved(Err(e)) => (
                CreateUrlState::Done,
                CreateUrlAction::Reply(code_unavailable_failure(e.as_str())),
            ),
            CreateUrlEvent::Reserved(Ok(())) => {
                let sc = code.clone();
                (
                    CreateUrlState::AwaitStore { code, user_id, tenant },
                    CreateUrlAction::StoreLink { code: sc, dest, password_hash },
                )
            },
            _ => (CreateUrlState::AwaitReserve { code, dest, password_hash, user_id, tenant }, CreateUrlAction::Ignore),
        },
        CreateUrlState::AwaitStore { code, user_id, tenant } => match event {
            CreateUrlEvent::Stored(Err(e)) => (
                CreateUrlState::Done,
                CreateUrlAction::ReleaseThenReply {
                    code,
                    tenant,
                    failure: ApiFailure { status: 500, body: crate::api::ApiError { error: e } },
                },
            ),
            CreateUrlEvent::Stored(Ok(id)) => {
                let detail = request_audit_detail(ctx.ip.as_str(), as_text(&ctx.user_agent));
                let audit = audit_plan(ctx.username.as_str(), "URL_CREATION", "url", id.as_str(), Some(detail));
                (CreateUrlState::Done, CreateUrlAction::Complete { code, url_id: id, user_id, audit, status: 201 })
            },
            _ => (CreateUrlState::AwaitStore { code, user_id, tenant }, CreateUrlAction::Ignore),
        },
        CreateUrlState::Done => (CreateUrlState::Done, CreateUrlAction::Ignore),
    }
}

} // verus!
