//! Creating a landing page from the user's or the admin's page form: the
//! checks, the reservation of the page code in the global registry (refused
//! when the code is already taken by any slug, link or page), and the
//! release of that reservation when storing fails. Each step takes the
//! state and what the last outside operation answered, and says what to do
//! next.

use vstd::prelude::*;
use vstd::string::*;
use crate::auth::{audit_event_metadata, debug_opt_text};
use crate::links::{admin_slug_message, choose_form_code, form_code_choice, form_code_problem, page_slug_input, user_slug_message, CodeChoice};
use crate::models::{audit_is, audit_plan, opt_string, AuditPlan, Reply};
use crate::redirect::reply;
use crate::text::{join_text, str_eq};
use crate::users::normalized;

verus! {

/// What the form brings and who submits it; the same at every step.
pub struct PageFormCtx {
    /// The admin's form (else the user's).
    pub admin: bool,
    pub csrf_ok: bool,
    /// The account whose page quota counts (the user, or the admin's own
    /// account).
    pub account_id: i64,
    /// A random four-hex-digit code, used when the form asks for none.
    pub generated_code: String,
    pub custom_slug: String,
    pub code: String,
    pub slug: String,
    pub state: String,
    pub username: String,
    pub ip: String,
    pub user_agent: Option<String>,
}

pub enum PageFormState {
    Begin,
    AwaitTenant,
    AwaitQuota { code: String, slug: String },
    AwaitAvailability { code: String, slug: String },
    AwaitReserve { code: String, slug: String },
    AwaitStore { code: String },
    Done,
}

pub enum PageFormEvent {
    Start,
    TenantOpened(bool),
    QuotaChecked(bool),
    /// Whether the code is already a registered slug, a link's slug or a
    /// page's slug.
    Availability { in_slugs: bool, as_url: bool, as_page: bool },
    Reserved(Result<(), String>),
    Stored(Result<String, String>),
}

pub enum PageFormAction {
    OpenTenant { user_id: i64 },
    CheckQuota { user_id: i64 },
    CheckAvailability { code: String },
    /// Register the code as a page slug, `reserving`, for this owner.
    ReserveSlug { code: String, owner_user_id: i64 },
    StorePage { code: String, slug: String },
    /// Answer with this reply; nothing was reserved.
    Fail(Reply),
    /// Redirect back with the error; nothing was reserved.
    Redirect(String),
    /// Release the reservation, then redirect back with the error.
    ReleaseThenRedirect { code: String, owner_user_id: i64, location: String },
    /// Point the registry entry at the page with this status, count the page
    /// against the quota, write the audit event, redirect to the list.
    Complete { code: String, page_id: String, registry_status: String, quota_user_id: i64, audit: AuditPlan, location: String },
    Ignore,
}

pub open spec fn pages_path(admin: bool) -> Seq<char> {
    if admin { "/admin/pages"@ } else { "/user/pages"@ }
}

/// The registry owner of a form's page: the user, or the installation
/// account 1 for admin content.
pub open spec fn page_owner(ctx: PageFormCtx) -> i64 {
    if ctx.admin { 1 } else { ctx.account_id }
}

pub open spec fn page_slug_message(admin: bool) -> Seq<char> {
    if admin {
        "Custom slug must start with ! followed by 1-24 characters of a-z, 0-9, -, _"@
    } else {
        "Custom slug must start with ! followed by 1-24 a-z, 0-9, -, _"@
    }
}

pub open spec fn redirects_with(ctx: PageFormCtx, r: (PageFormState, PageFormAction), m: Seq<char>) -> bool {
    r.0 is Done && (r.1 matches PageFormAction::Redirect(l) && l@ == pages_path(ctx.admin) + "?error="@ + m)
}

fn error_location(admin: bool, m: &str) -> (r: String)
    ensures
        r@ == pages_path(admin) + "?error="@ + m@,
{
    let base = if admin { "/admin/pages?error=" } else { "/user/pages?error=" };
    proof {
        reveal_strlit("/admin/pages?error=");
        reveal_strlit("/user/pages?error=");
        reveal_strlit("/admin/pages");
        reveal_strlit("/user/pages");
        reveal_strlit("?error=");
    }
    assert(base@ == pages_path(admin) + "?error="@);
    join_text(base, m)
}

fn redirect(ctx: &PageFormCtx, m: &str) -> (r: (PageFormState, PageFormAction))
    ensures
        redirects_with(*ctx, r, m@),
{
    (PageFormState::Done, PageFormAction::Redirect(error_location(ctx.admin, m)))
}

/// The code and page-slug checks of a page form, and the quota read that
/// follows them.
pub open spec fn code_step_ok(ctx: PageFormCtx, r: (PageFormState, PageFormAction)) -> bool {
        match form_code_problem(ctx.custom_slug@, ctx.code@, 4, page_slug_message(ctx.admin)) {
            Some(m) => redirects_with(ctx, r, m),
            None => if normalized(ctx.slug@).len() == 0 {
                redirects_with(ctx, r, "Slug is required"@)
            } else {
                (r.0 matches PageFormState::AwaitQuota { code, slug } && slug@ == normalized(ctx.slug@)
                    && (form_code_choice(ctx.custom_slug@, ctx.code@, CodeChoice::Generate) ==> code@ == ctx.generated_code@)
                    && (!form_code_choice(ctx.custom_slug@, ctx.code@, CodeChoice::Generate) ==> form_code_choice(
                    ctx.custom_slug@, ctx.code@, CodeChoice::Chosen(code))))
                    && r.1 == PageFormAction::CheckQuota { user_id: ctx.account_id }
            },
        }
}

fn code_step(ctx: &PageFormCtx) -> (r: (PageFormState, PageFormAction))
    ensures
        code_step_ok(*ctx, r),
{
    let msg = if ctx.admin { admin_slug_message() } else { user_slug_message() };
    let code = match choose_form_code(ctx.custom_slug.as_str(), ctx.code.as_str(), 4, msg) {
        Err(m) => return redirect(ctx, m.as_str()),
        Ok(CodeChoice::Generate) => ctx.generated_code.clone(),
        Ok(CodeChoice::Chosen(c)) => c,
    };
    match page_slug_input(ctx.slug.as_str()) {
        Err(m) => redirect(ctx, m),
        Ok(slug) => (PageFormState::AwaitQuota { code, slug }, PageFormAction::CheckQuota { user_id: ctx.account_id }),
    }
}

/// One step of page creation from a page form.
///
/// Before anything is reserved: a bad CSRF token, the user's databases not
/// opening (`500 Database error`), a refused code, a blank page slug, an
/// account over its page quota, and a code already taken by any registered
/// slug, link or page redirect back. The code is then reserved; a refused
/// reservation redirects back. Once reserved, a storage failure releases it
/// before redirecting; a stored page points the registry at it (`active`
/// when published, else `disabled`), counts against the quota, is audited,
/// and the list is shown.
pub fn page_form_step(state: PageFormState, event: PageFormEvent, ctx: &PageFormCtx) -> (r: (PageFormState, PageFormAction))
    ensures
        r.1 is Ignore ==> r.0 == state,
        r.1 is ReserveSlug ==> state is AwaitAvailability && event == (PageFormEvent::Availability {
            in_slugs: false,
            as_url: false,
            as_page: false,
        }),
        r.1 !is Ignore && r.0 is AwaitAvailability ==> state is AwaitQuota && event == PageFormEvent::QuotaChecked(true),
        state is AwaitStore ==> !(r.1 is Redirect) && !(r.1 is Fail),
        r.1 is ReleaseThenRedirect || r.1 is Complete ==> state is AwaitStore,
        state is Begin && event is Start ==> if !ctx.csrf_ok {
            redirects_with(*ctx, r, "Invalid CSRF token"@)
        } else if ctx.admin {
            code_step_ok(*ctx, r)
        } else {
            r.0 is AwaitTenant && r.1 == PageFormAction::OpenTenant { user_id: ctx.account_id }
        },
        state is AwaitTenant ==> match event {
            PageFormEvent::TenantOpened(false) => r.0 is Done && (r.1 matches PageFormAction::Fail(f) && f.status == 500
                && f.location is None && f.body@ == "Database error"@),
            PageFormEvent::TenantOpened(true) => code_step_ok(*ctx, r),
            _ => r.1 is Ignore,
        },
        state matches PageFormState::AwaitQuota { code, slug } ==> match event {
            PageFormEvent::QuotaChecked(false) => redirects_with(*ctx, r, "Quota limit exceeded"@),
            PageFormEvent::QuotaChecked(true) => r.0 == PageFormState::AwaitAvailability { code, slug }
                && (r.1 matches PageFormAction::CheckAvailability { code: c } && c@ == code@),
            _ => r.1 is Ignore,
        },
        state matches PageFormState::AwaitAvailability { code, slug } ==> match event {
            PageFormEvent::Availability { in_slugs, as_url, as_page } => if in_slugs || as_url || as_page {
                redirects_with(*ctx, r, if ctx.admin { "Short code already exists"@ } else { "Short code/slug already exists"@ })
            } else {
                r.0 == PageFormState::AwaitReserve { code, slug } && (r.1 matches PageFormAction::ReserveSlug {
                    code: c,
                    owner_user_id,
                } && c@ == code@ && owner_user_id == page_owner(*ctx))
            },
            _ => r.1 is Ignore,
        },
        state matches PageFormState::AwaitReserve { code, slug } ==> match event {
            PageFormEvent::Reserved(Err(e)) => redirects_with(*ctx, r, "Failed to reserve slug: "@ + e@),
            PageFormEvent::Reserved(Ok(())) => (r.0 matches PageFormState::AwaitStore { code: c } && c@ == code@)
                && (r.1 matches PageFormAction::StorePage { code: c, slug: s } && c@ == code@ && s@ == slug@),
            _ => r.1 is Ignore,
        },
        state matches PageFormState::AwaitStore { code } ==> match event {
            PageFormEvent::Stored(Err(e)) => r.0 is Done && (r.1 matches PageFormAction::ReleaseThenRedirect {
                code: c,
                owner_user_id,
                location,
            } && c@ == code@ && owner_user_id == page_owner(*ctx)
                && location@ == pages_path(ctx.admin) + "?error="@ + "Database error: "@ + e@),
            PageFormEvent::Stored(Ok(id)) => r.0 is Done && (r.1 matches PageFormAction::Complete {
                code: c,
                page_id,
                registry_status,
                quota_user_id,
                audit,
                location,
            } && c@ == code@ && page_id@ == id@
                && registry_status@ == (if ctx.state@ == "published"@ { "active"@ } else { "disabled"@ })
                && quota_user_id == ctx.account_id && audit_is(audit, ctx.username@, if ctx.admin {
                "PAGE_CREATION"@
            } else {
                "USER_PAGE_CREATION"@
            }, "page"@, id@, Some(
                "IP: "@ + debug_opt_text(Some(ctx.ip@)) + ", UA: "@ + debug_opt_text(opt_string(ctx.user_agent)),
            )) && location@ == pages_path(ctx.admin)),
            _ => r.1 is Ignore,
        },
        state is Done ==> r.1 is Ignore,
{
    match state {
        PageFormState::Begin => match event {
            PageFormEvent::Start => if !ctx.csrf_ok {
                redirect(ctx, "Invalid CSRF token")
            } else if ctx.admin {
                code_step(ctx)
            } else {
                (PageFormState::AwaitTenant, PageFormAction::OpenTenant { user_id: ctx.account_id })
            },
            _ => (PageFormState::Begin, PageFormAction::Ignore),
        },
        PageFormState::AwaitTenant => match event {
            PageFormEvent::TenantOpened(false) => (PageFormState::Done, PageFormAction::Fail(reply(500, None, "Database error"))),
            PageFormEvent::TenantOpened(true) => code_step(ctx),
            _ => (PageFormState::AwaitTenant, PageFormAction::Ignore),
        },
        PageFormState::AwaitQuota { code, slug } => match event {
            PageFormEvent::QuotaChecked(false) => redirect(ctx, "Quota limit exceeded"),
            PageFormEvent::QuotaChecked(true) => {
                let c = code.clone();
                (PageFormState::AwaitAvailability { code, slug }, PageFormAction::CheckAvailability { code: c })
            },
            _ => (PageFormState::AwaitQuota { code, slug }, PageFormAction::Ignore),
        },
        PageFormState::AwaitAvailability { code, slug } => match event {
            PageFormEvent::Availability { in_slugs, as_url, as_page } => if in_slugs || as_url || as_page {
                if ctx.admin {
                    redirect(ctx, "Short code already exists")
                } else {
                    redirect(ctx, "Short code/slug already exists")
                }
            } else {
                let c = code.clone();
                let owner: i64 = if ctx.admin { 1 } else { ctx.account_id };
                (PageFormState::AwaitReserve { code, slug }, PageFormAction::ReserveSlug { code: c, owner_user_id: owner })
            },
            _ => (PageFormState::AwaitAvailability { code, slug }, PageFormAction::Ignore),
        },
        PageFormState::AwaitReserve { code, slug } => match event {
            PageFormEvent::Reserved(Err(e)) => {
                let m = join_text("Failed to reserve slug: ", e.as_str());
                redirect(ctx, m.as_str())
            },
            PageFormEvent::Reserved(Ok(())) => {
                let c = code.clone();
                (PageFormState::AwaitStore { code }, PageFormAction::StorePage { code: c, slug })
            },
            _ => (PageFormState::AwaitReserve { code, slug }, PageFormAction::Ignore),
        },
        PageFormState::AwaitStore { code } => match event {
            PageFormEvent::Stored(Err(e)) => {
                let m = join_text("Database error: ", e.as_str());
                let location = error_location(ctx.admin, m.as_str());
                let owner: i64 = if ctx.admin { 1 } else { ctx.account_id };
                (PageFormState::Done, PageFormAction::ReleaseThenRedirect { code, owner_user_id: owner, location })
            },
            PageFormEvent::Stored(Ok(id)) => {
                let ua = match &ctx.user_agent {
                    Some(s) => Some(s.as_str()),
                    None => None,
                };
                let meta = audit_event_metadata(Some(ctx.ip.as_str()), ua);
                let action = if ctx.admin { "PAGE_CREATION" } else { "USER_PAGE_CREATION" };
                let audit = audit_plan(ctx.username.as_str(), action, "page", id.as_str(), Some(meta));
                let status = if str_eq(ctx.state.as_str(), "published") {
                    String::from_str("active")
                } else {
                    String::from_str("disabled")
                };
                let location = if ctx.admin {
                    String::from_str("/admin/pages")
                } else {
                    String::from_str("/user/pages")
                };
                proof {
                    reveal_strlit("PAGE_CREATION");
                    reveal_strlit("USER_PAGE_CREATION");
                    reveal_strlit("active");
                    reveal_strlit("disabled");
                    reveal_strlit("/admin/pages");
                    reveal_strlit("/user/pages");
                }
                (
                    PageFormState::Done,
                    PageFormAction::Complete {
                        code,
                        page_id: id,
                        registry_status: status,
                        quota_user_id: ctx.account_id,
                        audit,
                        location,
                    },
                )
            },
            _ => (PageFormState::AwaitStore { code }, PageFormAction::Ignore),
        },
        PageFormState::Done => (PageFormState::Done, PageFormAction::Ignore),
    }
}

} // verus!
