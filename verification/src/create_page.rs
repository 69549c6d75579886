//! Creating a landing page through the API: the checks that come before the
//! page code is reserved in the global registry, and what happens to the
//! reservation afterwards. Each step takes the state and what the last
//! outside operation answered, and says what to do next.

use vstd::prelude::*;
use vstd::string::*;
use crate::api::{
    api_failure, choose_page_code, code_unavailable_failure, create_page_admin_message, failure_is,
    quota_exceeded_failure, requested_code, ApiFailure,
};
use crate::links::CodeChoice;
use crate::models::{audit_is, audit_plan, opt_string, opt_text, AuditPlan};
use crate::validation::is_page_code;

verus! {

/// What the request brings and who it acts for; the same at every step.
pub struct CreatePageCtx {
    pub requested_code: Option<String>,
    /// A random four-hex-digit code, used when none was asked for.
    pub generated_code: String,
    /// The account and tenant the page is created for; `None` for an admin
    /// key.
    pub owner: Option<(i64, String)>,
    pub username: String,
}

pub enum CreatePageState {
    Begin,
    AwaitTenant { code: String, user_id: i64, tenant: String },
    AwaitQuota { code: String, user_id: i64, tenant: String },
    AwaitReserve { code: String, user_id: i64, tenant: String },
    AwaitStore { code: String, user_id: i64, tenant: String },
    Done,
}

pub enum CreatePageEvent {
    Start,
    TenantOpened(bool),
    QuotaChecked(bool),
    Reserved(Result<(), String>),
    Stored(Result<String, String>),
}

pub enum CreatePageAction {
    OpenTenant { user_id: i64 },
    CheckQuota { user_id: i64 },
    ReserveSlug { code: String, tenant: String },
    StorePage { code: String },
    /// Answer with the failure; nothing was reserved.
    Reply(ApiFailure),
    /// Release the reservation, then answer with the failure.
    ReleaseThenReply { code: String, tenant: String, failure: ApiFailure },
    /// Activate the code for the stored page, count it against the page
    /// quota, write the audit event (with the request's address and agent)
    /// and answer with the page.
    Complete { code: String, page_id: String, user_id: i64, audit: AuditPlan, status: u16 },
    Ignore,
}

fn text_of(o: &Option<String>) -> (r: Option<&str>)
    ensures
        opt_text(r) == opt_string(*o),
{
    match o {
        Some(s) => Some(s.as_str()),
        None => None,
    }
}

/// One step of landing-page creation through the API.
///
/// Before anything is reserved: a code of the wrong shape is `400`, an admin
/// key `400`, databases that do not open `500 Database error`, an account
/// over its page quota `403`. A refused reservation is `409`. Once reserved,
/// a storage failure releases the code before the `500`; a stored page
/// activates the code, counts against the quota, is audited and answered
/// `201`.
pub fn create_page_step(state: CreatePageState, event: CreatePageEvent, ctx: &CreatePageCtx) -> (r: (
    CreatePageState,
    CreatePageAction,
))
    ensures
        r.1 is Ignore ==> r.0 == state,
        r.1 is ReserveSlug ==> state is AwaitQuota && event == CreatePageEvent::QuotaChecked(true),
        r.1 !is Ignore && r.0 is AwaitQuota ==> state is AwaitTenant && event == CreatePageEvent::TenantOpened(true),
        r.1 !is Ignore && r.0 is AwaitTenant ==> state is Begin && event is Start,
        state is AwaitStore ==> !(r.1 is Reply),
        r.1 is ReleaseThenReply || r.1 is Complete ==> state is AwaitStore,
        state is Begin && event is Start ==> ({
            let c = requested_code(opt_string(ctx.requested_code));
            if c.len() != 0 && !is_page_code(c) {
                r.0 is Done && (r.1 matches CreatePageAction::Reply(f) && failure_is(f, 400,
                    "Short code must be 4 hex characters or start with ! followed by 1-24 characters of a-z, 0-9, -, _"@))
            } else {
                match ctx.owner {
                    None => r.0 is Done && (r.1 matches CreatePageAction::Reply(f) && failure_is(f, 400,
                        "Admin is a platform operator and cannot create application landing pages directly without tenant context"@)),
                    Some((uid, tenant)) => (r.0 matches CreatePageState::AwaitTenant { code, user_id, tenant: t }
                        && (if c.len() == 0 { code@ == ctx.generated_code@ } else { code@ == c }) && user_id == uid
                        && t@ == tenant@) && r.1 == CreatePageAction::OpenTenant { user_id: uid },
                }
            }
        }),
        state matches CreatePageState::AwaitTenant { code, user_id, tenant } ==> match event {
            CreatePageEvent::TenantOpened(false) => r.0 is Done && (r.1 matches CreatePageAction::Reply(f)
                && failure_is(f, 500, "Database error"@)),
            CreatePageEvent::TenantOpened(true) => r.0 == CreatePageState::AwaitQuota { code, user_id, tenant }
                && r.1 == CreatePageAction::CheckQuota { user_id },
            _ => r.1 is Ignore,
        },
        state matches CreatePageState::AwaitQuota { code, user_id, tenant } ==> match event {
            CreatePageEvent::QuotaChecked(false) => r.0 is Done && (r.1 matches CreatePageAction::Reply(f)
                && failure_is(f, 403, "Quota limit exceeded"@)),
            CreatePageEvent::QuotaChecked(true) => r.0 == CreatePageState::AwaitReserve { code, user_id, tenant }
                && (r.1 matches CreatePageAction::ReserveSlug { code: c, tenant: t } && c@ == code@ && t@ == tenant@),
            _ => r.1 is Ignore,
        },
        state matches CreatePageState::AwaitReserve { code, user_id, tenant } ==> match event {
            CreatePageEvent::Reserved(Err(e)) => r.0 is Done && (r.1 matches CreatePageAction::Reply(f)
                && failure_is(f, 409, "Short code unavailable: "@ + e@)),
            CreatePageEvent::Reserved(Ok(())) => r.0 == CreatePageState::AwaitStore { code, user_id, tenant }
                && (r.1 matches CreatePageAction::StorePage { code: c } && c@ == code@),
            _ => r.1 is Ignore,
        },
        state matches CreatePageState::AwaitStore { code, user_id, tenant } ==> match event {
            CreatePageEvent::Stored(Err(e)) => r.0 is Done && (r.1 matches CreatePageAction::ReleaseThenReply {
                code: c,
                tenant: t,
                failure,
            } && c@ == code@ && t@ == tenant@ && failure.status == 500 && failure.body.error@ == e@),
            CreatePageEvent::Stored(Ok(id)) => r.0 is Done && (r.1 matches CreatePageAction::Complete {
                code: c,
                page_id,
                user_id: u,
                audit,
                status,
            } && c@ == code@ && page_id@ == id@ && u == user_id && status == 201 && audit_is(audit,
                ctx.username@, "PAGE_CREATION"@, "page"@, id@, None)),
            _ => r.1 is Ignore,
        },
        state is Done ==> r.1 is Ignore,
{
    match state {
        CreatePageState::Begin => match event {
            CreatePageEvent::Start => {
                let code = match choose_page_code(text_of(&ctx.requested_code)) {
                    Err(f) => return (CreatePageState::Done, CreatePageAction::Reply(f)),
                    Ok(CodeChoice::Generate) => ctx.generated_code.clone(),
                    Ok(CodeChoice::Chosen(c)) => c,
                };
                match &ctx.owner {
                    None => (CreatePageState::Done, CreatePageAction::Reply(api_failure(400, create_page_admin_message()))),
                    Some((uid, tenant)) => (
                        CreatePageState::AwaitTenant { code, user_id: *uid, tenant: tenant.clone() },
                        CreatePageAction::OpenTenant { user_id: *uid },
                    ),
                }
            },
            _ => (CreatePageState::Begin, CreatePageAction::Ignore),
        },
        CreatePageState::AwaitTenant { code, user_id, tenant } => match event {
            CreatePageEvent::TenantOpened(false) => (
                CreatePageState::Done,
                CreatePageAction::Reply(api_failure(500, "Database error")),
            ),
            CreatePageEvent::TenantOpened(true) => (
                CreatePageState::AwaitQuota { code, user_id, tenant },
                CreatePageAction::CheckQuota { user_id },
            ),
            _ => (CreatePageState::AwaitTenant { code, user_id, tenant }, CreatePageAction::Ignore),
        },
        CreatePageState::AwaitQuota { code, user_id, tenant } => match event {
            CreatePageEvent::QuotaChecked(false) => (CreatePageState::Done, CreatePageAction::Reply(quota_exceeded_failure())),
            CreatePageEvent::QuotaChecked(true) => {
                let c = code.clone();
                let t = tenant.clone();
                (CreatePageState::AwaitReserve { code, user_id, tenant }, CreatePageAction::ReserveSlug { code: c, tenant: t })
            },
            _ => (CreatePageState::AwaitQuota { code, user_id, tenant }, CreatePageAction::Ignore),
        },
        CreatePageState::AwaitReserve { code, user_id, tenant } => match event {
            CreatePageEvent::Reserved(Err(e)) => (
                CreatePageState::Done,
                CreatePageAction::Reply(code_unavailable_failure(e.as_str())),
            ),
            CreatePageEvent::Reserved(Ok(())) => {
                let c = code.clone();
                (CreatePageState::AwaitStore { code, user_id, tenant }, CreatePageAction::StorePage { code: c })
            },
            _ => (CreatePageState::AwaitReserve { code, user_id, tenant }, CreatePageAction::Ignore),
        },
        CreatePageState::AwaitStore { code, user_id, tenant } => match event {
            CreatePageEvent::Stored(Err(e)) => (
                CreatePageState::Done,
                CreatePageAction::ReleaseThenReply {
                    code,
                    tenant,
                    failure: ApiFailure { status: 500, body: crate::api::ApiError { error: e } },
                },
            ),
            CreatePageEvent::Stored(Ok(id)) => {
                let audit = audit_plan(ctx.username.as_str(), "PAGE_CREATION", "page", id.as_str(), None);
                (CreatePageState::Done, CreatePageAction::Complete { code, page_id: id, user_id, audit, status: 201 })
            },
            _ => (CreatePageState::AwaitStore { code, user_id, tenant }, CreatePageAction::Ignore),
        },
        CreatePageState::Done => (CreatePageState::Done, CreatePageAction::Ignore),
    }
}

} // verus!
