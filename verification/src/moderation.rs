//! Content moderation and the global slug registry: the listings of the
//! moderation and slug pages, moderation actions and what they change, slug
//! status changes, releases and ownership transfers.

use vstd::prelude::*;
use vstd::string::*;
use crate::listing::{ListingRow, SortKey, key_by, sort_descending, stable_descending};
use crate::models::{audit_is, audit_plan, opt_string, AuditPlan, SlugTargetType, UserQuotas};
use crate::records::{fresh_uuid, is_uuid_v4_text};
use crate::text::{i64_decimal, int_decimal, join_text, lowercase_str, str_eq, trim_str, trimmed};
use crate::users::normalized;

verus! {

/// A slug of the global registry as the admin listings show it.
pub struct GlobalSlugRow {
    pub slug: String,
    pub owner_user_id: i64,
    /// `url` or `page`.
    pub target_type: String,
    pub target_id: String,
    pub created_at: String,
    pub updated_at: String,
    pub status: String,
    pub deleted_at: Option<String>,
}

/// A recorded moderation event.
pub struct ModerationLogEntry {
    pub id: String,
    pub timestamp: String,
    pub admin_username: String,
    pub target_user_id: i64,
    pub target_username: Option<String>,
    pub resource_type: String,
    pub resource_identifier: String,
    pub action: String,
    pub severity: String,
    pub reason: String,
}

/// A recorded change of a slug's owner.
pub struct SlugHistoryRow {
    pub id: i64,
    pub slug: String,
    pub old_owner_user_id: Option<i64>,
    pub new_owner_user_id: Option<i64>,
    pub action: String,
    pub timestamp: String,
    pub admin_username: Option<String>,
}

pub struct AdminModerateForm {
    pub slug: String,
    pub action: String,
    pub severity: String,
    pub reason: String,
    pub csrf_token: String,
}

pub struct SlugsQuery {
    pub search: Option<String>,
    pub owner: Option<i64>,
    pub status: Option<String>,
    pub success: Option<String>,
    pub error: Option<String>,
}

pub struct AdminTransferForm {
    pub slug: String,
    pub new_owner_user_id: i64,
    pub csrf_token: String,
}

pub struct AdminSlugStatusForm {
    pub slug: String,
    pub status: String,
    pub csrf_token: String,
}

pub struct AdminSlugDeleteForm {
    pub slug: String,
    pub csrf_token: String,
}

/// The API request that transfers a slug.
pub struct TransferSlugRequest {
    pub slug: String,
    pub new_owner_user_id: i64,
}

/// The API request that moderates a slug.
pub struct ModerateSlugRequest {
    pub slug: String,
    /// `flagged`, `disabled` or `active`.
    pub action: String,
    /// `low`, `medium`, `high` or `critical`.
    pub severity: String,
    pub reason: String,
}

/// A moderation event as the API returns it.
pub struct ModerationEventResponse {
    pub id: String,
    pub timestamp: String,
    pub admin_username: String,
    pub target_user_id: i64,
    pub target_username: Option<String>,
    pub resource_type: String,
    pub resource_identifier: String,
    pub action: String,
    pub severity: String,
    pub reason: String,
}

// ---------------------------------------------------------------------------
// Listings
// ---------------------------------------------------------------------------

impl ListingRow for GlobalSlugRow {
    open spec fn listing_key(&self, by: SortKey) -> Seq<char> {
        match by {
            SortKey::CreatedAt => self.created_at@,
            SortKey::UpdatedAt => self.updated_at@,
            SortKey::Name => self.slug@,
        }
    }

    fn listing_key_str(&self, by: SortKey) -> (r: &str) {
        match by {
            SortKey::CreatedAt => self.created_at.as_str(),
            SortKey::UpdatedAt => self.updated_at.as_str(),
            SortKey::Name => self.slug.as_str(),
        }
    }
}

/// The rows an owner filter lets through: all of them without a filter,
/// otherwise those of that owner.
pub open spec fn owner_matches(owner: Option<i64>) -> spec_fn(GlobalSlugRow) -> bool {
    |r: GlobalSlugRow| match owner {
        Some(o) => r.owner_user_id == o,
        None => true,
    }
}

pub fn keep_owner(rows: Vec<GlobalSlugRow>, owner: Option<i64>) -> (r: Vec<GlobalSlugRow>)
    ensures
        r@ == rows@.filter(owner_matches(owner)),
{
    let ghost orig = rows@;
    let ghost pred = owner_matches(owner);
    let mut rows = rows;
    let mut out: Vec<GlobalSlugRow> = Vec::new();
    let mut k: usize = 0;
    assert(orig.len() == rows.len());
    while rows.len() > 0
        invariant
            k + rows.len() == orig.len(),
            orig.len() <= usize::MAX,
            rows@ == orig.subrange(k as int, orig.len() as int),
            pred == owner_matches(owner),
            out@ == orig.take(k as int).filter(pred),
        decreases rows.len(),
    {
        let item = rows.remove(0);
        assert(item == orig[k as int]);
        let keep = match owner {
            Some(o) => item.owner_user_id == o,
            None => true,
        };
        proof {
            reveal(Seq::filter);
            assert(orig.take(k + 1).drop_last() =~= orig.take(k as int));
        }
        if keep {
            out.push(item);
        }
        k = k + 1;
        assert(rows@ =~= orig.subrange(k as int, orig.len() as int));
    }
    assert(orig.take(k as int) =~= orig);
    out
}

/// The slug page: link slugs then page slugs, each narrowed to the owner
/// filter, all ordered newest first by creation time.
pub open spec fn slug_listing_spec(
    url_rows: Seq<GlobalSlugRow>,
    page_rows: Seq<GlobalSlugRow>,
    owner: Option<i64>,
    out: Seq<GlobalSlugRow>,
) -> bool {
    stable_descending(
        url_rows.filter(owner_matches(owner)) + page_rows.filter(owner_matches(owner)),
        out,
        key_by::<GlobalSlugRow>(SortKey::CreatedAt),
    )
}

pub fn slug_listing(url_rows: Vec<GlobalSlugRow>, page_rows: Vec<GlobalSlugRow>, owner: Option<i64>) -> (r: Vec<
    GlobalSlugRow,
>)
    ensures
        slug_listing_spec(url_rows@, page_rows@, owner, r@),
{
    let mut all = keep_owner(url_rows, owner);
    let mut pages = keep_owner(page_rows, owner);
    all.append(&mut pages);
    sort_descending(all, SortKey::CreatedAt)
}

/// A registry query and its parameters.
pub struct SlugQuery {
    pub sql: String,
    pub params: Vec<String>,
}

/// A filter field is used only when it is not blank; it is trimmed.
pub open spec fn filter_text(o: Option<Seq<char>>) -> Option<Seq<char>> {
    match o {
        Some(s) => if trimmed(s).len() == 0 { None } else { Some(trimmed(s)) },
        None => None,
    }
}

/// The slugs page's query of one registry table (`global_urls`, or
/// `global_landing_pages` for pages): slugs containing the search text,
/// with the given status, newest first, at most 100 rows.
pub open spec fn slug_query_text(pages: bool, search: Option<Seq<char>>, status: Option<Seq<char>>) -> (Seq<char>, Seq<Seq<char>>) {
    let table: Seq<char> = if pages { "global_landing_pages"@ } else { "global_urls"@ };
    let s = filter_text(search);
    let st = filter_text(status);
    (
        "SELECT slug, owner_tenant_id, target_id, created_at, updated_at, status, retired_at FROM "@ + table
            + " WHERE 1=1"@
            + (if s is Some { " AND slug LIKE ?"@ } else { Seq::empty() })
            + (if st is Some { " AND status = ?"@ } else { Seq::empty() })
            + " ORDER BY created_at DESC LIMIT 100;"@,
        (if s is Some { seq!["%"@ + s->0 + "%"@] } else { Seq::empty() })
            + (if st is Some { seq![st->0] } else { Seq::empty() }),
    )
}

fn filter_of(o: Option<&str>) -> (r: Option<String>)
    ensures
        opt_string(r) == filter_text(crate::models::opt_text(o)),
{
    match o {
        Some(s) => {
            let t = trim_str(s);
            if t.is_empty() { None } else { Some(String::from_str(t)) }
        },
        None => None,
    }
}

/// Builds the slugs page's query of one registry table.
pub fn slug_query(pages: bool, search: Option<&str>, status: Option<&str>) -> (r: SlugQuery)
    ensures
        r.sql@ == slug_query_text(pages, crate::models::opt_text(search), crate::models::opt_text(status)).0,
        r.params@.map_values(|p: String| p@) == slug_query_text(pages, crate::models::opt_text(search),
            crate::models::opt_text(status)).1,
{
    let mut sql = String::from_str(
        "SELECT slug, owner_tenant_id, target_id, created_at, updated_at, status, retired_at FROM ",
    );
    if pages {
        sql.append("global_landing_pages");
    } else {
        sql.append("global_urls");
    }
    sql.append(" WHERE 1=1");
    let s = filter_of(search);
    let st = filter_of(status);
    let mut params: Vec<String> = Vec::new();
    let ghost want = slug_query_text(pages, crate::models::opt_text(search), crate::models::opt_text(status));
    let ghost base = sql@;
    match &s {
        Some(t) => {
            sql.append(" AND slug LIKE ?");
            let mut p = String::from_str("%");
            p.append(t.as_str());
            p.append("%");
            params.push(p);
        },
        None => {},
    }
    let ghost mid = sql@;
    match &st {
        Some(t) => {
            sql.append(" AND status = ?");
            params.push(t.clone());
        },
        None => {},
    }
    let ghost mid2 = sql@;
    sql.append(" ORDER BY created_at DESC LIMIT 100;");
    proof {
        reveal_strlit("global_landing_pages");
        reveal_strlit("global_urls");
        assert(sql@ =~= want.0);
        assert(params@.map_values(|p: String| p@) =~= want.1);
    }
    SlugQuery { sql, params }
}

/// The slugs page's history query: the 50 latest ownership changes.
pub fn slug_history_query() -> (r: &'static str)
    ensures
        r@ == "SELECT id, slug, old_owner_user_id, new_owner_user_id, action, timestamp, admin_username FROM slug_history ORDER BY timestamp DESC LIMIT 50;"@,
{
    "SELECT id, slug, old_owner_user_id, new_owner_user_id, action, timestamp, admin_username FROM slug_history ORDER BY timestamp DESC LIMIT 50;"
}

/// The moderation queue: flagged or disabled link slugs then page slugs,
/// ordered newest first by last change.
pub fn moderation_queue(url_rows: Vec<GlobalSlugRow>, page_rows: Vec<GlobalSlugRow>) -> (r: Vec<GlobalSlugRow>)
    ensures
        stable_descending(url_rows@ + page_rows@, r@, key_by::<GlobalSlugRow>(SortKey::UpdatedAt)),
{
    let mut all = url_rows;
    let mut pages = page_rows;
    all.append(&mut pages);
    sort_descending(all, SortKey::UpdatedAt)
}

/// The owner of a registry slug as an account id: 0 when no account holds
/// its tenant.
pub fn owner_user_id(account: Option<i64>) -> (r: i64)
    ensures
        r == match account {
            Some(id) => id,
            None => 0,
        },
{
    match account {
        Some(id) => id,
        None => 0,
    }
}

// ---------------------------------------------------------------------------
// Moderation actions
// ---------------------------------------------------------------------------

pub open spec fn is_moderation_action(a: Seq<char>, allow_delete: bool) -> bool {
    a == "flagged"@ || a == "disabled"@ || a == "active"@ || (allow_delete && a == "deleted"@)
}

/// The submitted action, trimmed and lowercased, when it is one the endpoint
/// accepts: `flagged`, `disabled`, `active`, and from the admin UI also
/// `deleted`.
pub fn normalize_moderation_action(raw: &str, allow_delete: bool) -> (r: Option<String>)
    ensures
        is_moderation_action(normalized(raw@), allow_delete) ==> r is Some && r->0@ == normalized(raw@),
        !is_moderation_action(normalized(raw@), allow_delete) ==> r is None,
{
    let s = lowercase_str(trim_str(raw));
    let t = s.as_str();
    if str_eq(t, "flagged") || str_eq(t, "disabled") || str_eq(t, "active") || (allow_delete && str_eq(
        t,
        "deleted",
    )) {
        Some(s)
    } else {
        None
    }
}

pub open spec fn is_slug_status(s: Seq<char>) -> bool {
    s == "active"@ || s == "flagged"@ || s == "disabled"@
}

/// The submitted registry status, trimmed and lowercased, when it is
/// `active`, `flagged` or `disabled`.
pub fn normalize_slug_status(raw: &str) -> (r: Option<String>)
    ensures
        is_slug_status(normalized(raw@)) ==> r is Some && r->0@ == normalized(raw@),
        !is_slug_status(normalized(raw@)) ==> r is None,
{
    let s = lowercase_str(trim_str(raw));
    let t = s.as_str();
    if str_eq(t, "active") || str_eq(t, "flagged") || str_eq(t, "disabled") {
        Some(s)
    } else {
        None
    }
}

/// What a moderation action does to the registry entry.
pub enum RegistryChange {
    /// Remove the slug from the registry.
    Remove,
    /// Set the entry's status to the action.
    SetStatus(String),
}

pub fn registry_change(action: &str) -> (r: RegistryChange)
    ensures
        action@ == "deleted"@ ==> r is Remove,
        action@ != "deleted"@ ==> r is SetStatus && r->SetStatus_0@ == action@,
{
    if str_eq(action, "deleted") {
        RegistryChange::Remove
    } else {
        RegistryChange::SetStatus(String::from_str(action))
    }
}

/// The owner's own record follows a moderation action: a disabled or deleted
/// link becomes `dead` (a page `archived`), anything else `active` (a page
/// `published`).
pub open spec fn content_state_after(target: SlugTargetType, action: Seq<char>) -> Seq<char> {
    let taken_down = action == "disabled"@ || action == "deleted"@;
    match target {
        SlugTargetType::Url => if taken_down {
            "dead"@
        } else {
            "active"@
        },
        SlugTargetType::LandingPage => if taken_down {
            "archived"@
        } else {
            "published"@
        },
    }
}

pub fn content_state_for(target: SlugTargetType, action: &str) -> (r: &'static str)
    ensures
        r@ == content_state_after(target, action@),
{
    let taken_down = str_eq(action, "disabled") || str_eq(action, "deleted");
    match target {
        SlugTargetType::Url => if taken_down {
            "dead"
        } else {
            "active"
        },
        SlugTargetType::LandingPage => if taken_down {
            "archived"
        } else {
            "published"
        },
    }
}

/// The name of a target type as the registry and the event log write it.
pub fn target_type_name(t: SlugTargetType) -> (r: &'static str)
    ensures
        t is Url ==> r@ == "url"@,
        t is LandingPage ==> r@ == "page"@,
{
    match t {
        SlugTargetType::Url => "url",
        SlugTargetType::LandingPage => "page",
    }
}

/// The moderation event stored for an action: a fresh id, the time it was
/// taken, who took it against whose content, and why.
pub fn moderation_event(
    now: &str,
    admin_username: &str,
    target_user_id: i64,
    target_username: Option<String>,
    target: SlugTargetType,
    slug: &str,
    action: &str,
    severity: &str,
    reason: &str,
) -> (r: ModerationLogEntry)
    ensures
        is_uuid_v4_text(r.id@),
        r.timestamp@ == now@,
        r.admin_username@ == admin_username@,
        r.target_user_id == target_user_id,
        r.target_username == target_username,
        target is Url ==> r.resource_type@ == "url"@,
        target is LandingPage ==> r.resource_type@ == "page"@,
        r.resource_identifier@ == slug@,
        r.action@ == action@,
        r.severity@ == severity@,
        r.reason@ == reason@,
{
    ModerationLogEntry {
        id: fresh_uuid(),
        timestamp: String::from_str(now),
        admin_username: String::from_str(admin_username),
        target_user_id,
        target_username,
        resource_type: String::from_str(target_type_name(target)),
        resource_identifier: String::from_str(slug),
        action: String::from_str(action),
        severity: String::from_str(severity),
        reason: String::from_str(reason),
    }
}

/// What the admin moderation form does.
pub enum ModerationPlan {
    /// Redirect back with the error; the registry, the owner's content and
    /// the moderation log stay as they were.
    Refuse(String),
    /// Change the registry entry, set the owner's record to the content
    /// state, store the event, write the audit event, then redirect.
    Apply {
        registry: RegistryChange,
        content_state: String,
        event: ModerationLogEntry,
        audit: AuditPlan,
        location: String,
    },
}

/// Why the moderation form is turned away, in the order of the checks.
pub open spec fn moderation_refusal(csrf_ok: bool, action_raw: Seq<char>, target: Option<SlugTargetType>, tenant_ok: bool) -> Option<
    Seq<char>,
> {
    if !csrf_ok {
        Some("Invalid CSRF token"@)
    } else if !is_moderation_action(normalized(action_raw), true) {
        Some("Invalid moderation action"@)
    } else if target is None {
        Some("Slug not found"@)
    } else if !tenant_ok {
        Some("Invalid tenant on slug"@)
    } else {
        None
    }
}

/// The admin moderation form. `target` is the kind of the slug's registry
/// entry when there is one; `tenant_ok` whether its owner's tenant id reads;
/// `owner` the owner's account (id and name) when it could be found.
pub fn moderation_plan(
    csrf_ok: bool,
    action_raw: &str,
    target: Option<SlugTargetType>,
    tenant_ok: bool,
    owner: Option<(i64, String)>,
    now: &str,
    admin_username: &str,
    slug: &str,
    severity: &str,
    reason: &str,
) -> (r: ModerationPlan)
    ensures
        match moderation_refusal(csrf_ok, action_raw@, target, tenant_ok) {
            Some(m) => r matches ModerationPlan::Refuse(l) && l@ == "/admin/moderation?error="@ + m,
            None => r matches ModerationPlan::Apply { registry, content_state, event, audit, location } && ({
                let a = normalized(action_raw@);
                &&& (a == "deleted"@ ==> registry is Remove)
                &&& (a != "deleted"@ ==> (registry matches RegistryChange::SetStatus(st) && st@ == a))
                &&& content_state@ == content_state_after(target->0, a)
                &&& is_uuid_v4_text(event.id@)
                &&& event.timestamp@ == now@
                &&& event.admin_username@ == admin_username@
                &&& event.target_user_id == (match owner { Some((id, _)) => id, None => 0 })
                &&& opt_string(event.target_username) == (match owner { Some((_, n)) => Some(n@), None => None })
                &&& event.resource_type@ == (if target->0 == SlugTargetType::Url { "url"@ } else { "page"@ })
                &&& event.resource_identifier@ == slug@
                &&& event.action@ == a
                &&& event.severity@ == severity@
                &&& event.reason@ == reason@
                &&& audit_is(audit, admin_username@, "CONTENT_MODERATION"@, "slug"@, slug@,
                    Some("Action: "@ + a + ", Reason: "@ + reason@))
                &&& location@ == "/admin/moderation?success=Moderation action '"@ + a + "' applied"@
            }),
        },
{
    if !csrf_ok {
        return ModerationPlan::Refuse(join_text("/admin/moderation?error=", "Invalid CSRF token"));
    }
    let action = match normalize_moderation_action(action_raw, true) {
        Some(a) => a,
        None => return ModerationPlan::Refuse(join_text("/admin/moderation?error=", "Invalid moderation action")),
    };
    let t = match target {
        Some(t) => t,
        None => return ModerationPlan::Refuse(join_text("/admin/moderation?error=", "Slug not found")),
    };
    if !tenant_ok {
        return ModerationPlan::Refuse(join_text("/admin/moderation?error=", "Invalid tenant on slug"));
    }
    let (owner_id, owner_name) = match owner {
        Some((id, n)) => (id, Some(n)),
        None => (0i64, None),
    };
    let event = moderation_event(now, admin_username, owner_id, owner_name, t, slug, action.as_str(), severity, reason);
    let detail = moderation_detail(action.as_str(), reason);
    ModerationPlan::Apply {
        registry: registry_change(action.as_str()),
        content_state: String::from_str(content_state_for(t, action.as_str())),
        event,
        audit: audit_plan(admin_username, "CONTENT_MODERATION", "slug", slug, Some(detail)),
        location: moderation_success_location(action.as_str()),
    }
}

/// The audit detail of a moderation action.
pub fn moderation_detail(action: &str, reason: &str) -> (r: String)
    ensures
        r@ == "Action: "@ + action@ + ", Reason: "@ + reason@,
{
    let mut out = join_text("Action: ", action);
    out.append(", Reason: ");
    out.append(reason);
    out
}

/// Where the moderation page goes after an action was applied.
pub fn moderation_success_location(action: &str) -> (r: String)
    ensures
        r@ == "/admin/moderation?success=Moderation action '"@ + action@ + "' applied"@,
{
    let mut out = join_text("/admin/moderation?success=Moderation action '", action);
    out.append("' applied");
    out
}

// ---------------------------------------------------------------------------
// Slug status, release and transfer
// ---------------------------------------------------------------------------

/// The slug page with an error message.
pub fn slugs_error_location(message: &str) -> (r: String)
    ensures
        r@ == "/admin/slugs?error="@ + message@,
{
    join_text("/admin/slugs?error=", message)
}

/// The audit detail of a registry status change.
pub fn slug_status_detail(status: &str) -> (r: String)
    ensures
        r@ == "Status set to "@ + status@,
{
    join_text("Status set to ", status)
}

pub fn slug_status_success_location(slug: &str, status: &str) -> (r: String)
    ensures
        r@ == "/admin/slugs?success=Slug /"@ + slug@ + " status updated to "@ + status@,
{
    let mut out = join_text("/admin/slugs?success=Slug /", slug);
    out.append(" status updated to ");
    out.append(status);
    out
}

pub fn slug_released_location(slug: &str) -> (r: String)
    ensures
        r@ == "/admin/slugs?success=Slug /"@ + slug@ + " released successfully"@,
{
    let mut out = join_text("/admin/slugs?success=Slug /", slug);
    out.append(" released successfully");
    out
}

pub fn slug_transferred_location(slug: &str, new_owner_user_id: i64) -> (r: String)
    ensures
        r@ == "/admin/slugs?success=Slug /"@ + slug@ + " successfully transferred to user "@ + int_decimal(
            new_owner_user_id as int,
        ),
{
    let mut out = join_text("/admin/slugs?success=Slug /", slug);
    out.append(" successfully transferred to user ");
    let n = i64_decimal(new_owner_user_id);
    out.append(n.as_str());
    out
}

/// The current owner and kind of a registry slug.
pub struct SlugOwnership {
    pub owner_user_id: i64,
    /// `url` or `page`.
    pub target_type: String,
}

/// Why a transfer cannot start, in the order the checks are made: the new
/// owner must exist, the slug must be registered, and it must change hands.
pub open spec fn transfer_refusal(new_owner_exists: bool, current: Option<SlugOwnership>, new_owner: i64) -> Option<Seq<char>> {
    if !new_owner_exists {
        Some("New owner user ID does not exist"@)
    } else {
        match current {
            None => Some("Slug not found"@),
            Some(c) => if c.owner_user_id == new_owner {
                Some("Slug is already owned by this user"@)
            } else {
                None
            },
        }
    }
}

pub fn transfer_precheck(new_owner_exists: bool, current: &Option<SlugOwnership>, new_owner: i64) -> (r: Result<(), &'static str>)
    ensures
        match transfer_refusal(new_owner_exists, *current, new_owner) {
            Some(m) => r is Err && r->Err_0@ == m,
            None => r is Ok,
        },
{
    if !new_owner_exists {
        return Err("New owner user ID does not exist");
    }
    match current {
        None => Err("Slug not found"),
        Some(c) => if c.owner_user_id == new_owner {
            Err("Slug is already owned by this user")
        } else {
            Ok(())
        },
    }
}

/// A link moves only while the new owner is under its link limit, a page
/// only while under its page limit; with no stored quotas nothing is refused.
pub open spec fn transfer_quota_refusal(target_type: Seq<char>, quota: Option<UserQuotas>) -> Option<Seq<char>> {
    match quota {
        None => None,
        Some(q) => if target_type == "url"@ && q.current_urls >= q.max_urls {
            Some("New owner has exceeded URL quota limit"@)
        } else if target_type == "page"@ && q.current_landings >= q.max_landings {
            Some("New owner has exceeded landing page quota limit"@)
        } else {
            None
        },
    }
}

pub fn transfer_quota_check(target_type: &str, quota: &Option<UserQuotas>) -> (r: Result<(), &'static str>)
    ensures
        match transfer_quota_refusal(target_type@, *quota) {
            Some(m) => r is Err && r->Err_0@ == m,
            None => r is Ok,
        },
{
    match quota {
        None => Ok(()),
        Some(q) => {
            if str_eq(target_type, "url") && q.current_urls >= q.max_urls {
                Err("New owner has exceeded URL quota limit")
            } else if str_eq(target_type, "page") && q.current_landings >= q.max_landings {
                Err("New owner has exceeded landing page quota limit")
            } else {
                Ok(())
            }
        },
    }
}

/// A moderation event as the API returns it: every recorded field.
pub fn moderation_event_response(e: ModerationLogEntry) -> (r: ModerationEventResponse)
    ensures
        r.id == e.id,
        r.timestamp == e.timestamp,
        r.admin_username == e.admin_username,
        r.target_user_id == e.target_user_id,
        r.target_username == e.target_username,
        r.resource_type == e.resource_type,
        r.resource_identifier == e.resource_identifier,
        r.action == e.action,
        r.severity == e.severity,
        r.reason == e.reason,
{
    ModerationEventResponse {
        id: e.id,
        timestamp: e.timestamp,
        admin_username: e.admin_username,
        target_user_id: e.target_user_id,
        target_username: e.target_username,
        resource_type: e.resource_type,
        resource_identifier: e.resource_identifier,
        action: e.action,
        severity: e.severity,
        reason: e.reason,
    }
}

/// Taking a slug down is never undone by its owner's record: after a
/// `disabled` or `deleted` action the owner's record is never live.
pub proof fn law_takedown_reaches_content(target: SlugTargetType, action: Seq<char>)
    requires
        action == "disabled"@ || action == "deleted"@,
    ensures
        content_state_after(target, action) != "active"@,
        content_state_after(target, action) != "published"@,
{
    reveal_strlit("dead");
    reveal_strlit("active");
    reveal_strlit("archived");
    reveal_strlit("published");
    assert("dead"@.len() != "active"@.len());
    assert("archived"@.len() != "published"@.len());
    assert("dead"@.len() != "published"@.len());
    assert("archived"@ != "active"@) by {
        assert("archived"@[1] != "active"@[1]);
    }
}

/// Moderation takes content down only for a takedown: after any action other
/// than `disabled` or `deleted` (such as reactivating with `active`, or
/// flagging), the owner's link is live again (`active`) and the owner's page
/// published.
pub proof fn law_content_live_unless_taken_down(action: Seq<char>)
    requires
        action != "disabled"@,
        action != "deleted"@,
    ensures
        content_state_after(SlugTargetType::Url, action) == "active"@,
        content_state_after(SlugTargetType::LandingPage, action) == "published"@,
{
}

/// For every action, the owner's link is dead (and page archived) exactly when the action is a
/// takedown, and live otherwise; the two outcomes never mix.
pub proof fn law_link_state_follows_action(action: Seq<char>)
    ensures
        (content_state_after(SlugTargetType::Url, action) == "dead"@) <==> (action == "disabled"@ || action
            == "deleted"@),
        (content_state_after(SlugTargetType::Url, action) == "active"@) <==> !(action == "disabled"@ || action
            == "deleted"@),
        (content_state_after(SlugTargetType::LandingPage, action) == "archived"@) <==> (action == "disabled"@
            || action == "deleted"@),
        (content_state_after(SlugTargetType::LandingPage, action) == "published"@) <==> !(action == "disabled"@
            || action == "deleted"@),
{
    reveal_strlit("dead");
    reveal_strlit("active");
    reveal_strlit("archived");
    reveal_strlit("published");
    assert("dead"@.len() != "active"@.len());
    assert("archived"@.len() != "published"@.len());
}

} // verus!
