//! Moving a slug to another account from the admin slugs page: the checks,
//! then the copy of the record into the new owner's database, and only after
//! a good copy the removal of the old record, the registry change, the
//! history row and the audit event. Each step takes the state and what the
//! last outside operation answered, and says what to do next.

use vstd::prelude::*;
use vstd::string::*;
use crate::models::{audit_is, audit_plan, AuditPlan, UserQuotas};
use crate::moderation::{
    slug_transferred_location, slugs_error_location, transfer_precheck, transfer_quota_check, transfer_quota_refusal,
    transfer_refusal, SlugOwnership,
};
use crate::text::{i64_decimal, int_decimal, join_text, str_eq};

verus! {

/// The form and who submits it; the same at every step.
pub struct TransferCtx {
    pub csrf_ok: bool,
    pub slug: String,
    pub new_owner: i64,
    pub admin_username: String,
}

/// Where the slug stands before the move.
pub struct TransferTarget {
    pub old_owner: i64,
    /// `url` or `page`.
    pub target_type: String,
    pub target_id: String,
}

pub enum TransferState {
    Begin,
    AwaitOwnership,
    AwaitDatabases { target: TransferTarget },
    AwaitRecord { target: TransferTarget },
    AwaitQuota { target: TransferTarget },
    AwaitCopy { target: TransferTarget },
    Done,
}

pub enum TransferEvent {
    Start,
    /// Whether the new owner exists, and the slug's registry row.
    OwnershipRead { new_owner_exists: bool, current: Option<TransferTarget> },
    /// Whether the old and the new owner's databases opened.
    DatabasesOpened { old_ok: bool, new_ok: bool },
    /// Whether the old owner's database has the record under the slug.
    RecordRead(Result<bool, String>),
    /// The new owner's quotas, when stored.
    QuotaRead(Option<UserQuotas>),
    /// The copied record's id in the new owner's database.
    Copied(Result<String, String>),
}

/// What a finished transfer writes, in this order: delete the old record
/// (when one was copied), point the registry at the new owner and record,
/// add the history row, write the audit event, then redirect.
pub struct TransferFinish {
    pub delete_old_record: bool,
    pub new_target_id: String,
    pub history_old_owner: i64,
    pub history_new_owner: i64,
    pub history_action: String,
    pub audit: AuditPlan,
    pub location: String,
}

pub enum TransferAction {
    ReadOwnership,
    OpenDatabases { old_owner: i64, new_owner: i64 },
    ReadRecord { target_type: String },
    ReadQuota { user_id: i64 },
    CopyRecord { target_type: String },
    /// Redirect back with an error; nothing was changed.
    Redirect(String),
    Finish(TransferFinish),
    Ignore,
}

pub open spec fn transfer_audit_detail(old_owner: i64, new_owner: i64) -> Seq<char> {
    "Transferred from "@ + int_decimal(old_owner as int) + " to "@ + int_decimal(new_owner as int)
}

/// The slugs page's error redirect, with nothing changed.
pub open spec fn refused_with(r: (TransferState, TransferAction), message: Seq<char>) -> bool {
    r.0 is Done && (r.1 matches TransferAction::Redirect(l) && l@ == "/admin/slugs?error="@ + message)
}

/// The finish of a transfer.
pub open spec fn finishes(ctx: TransferCtx, t: TransferTarget, deletes: bool, target_id: Seq<char>, r: (
    TransferState,
    TransferAction,
)) -> bool {
    r.0 is Done && (r.1 matches TransferAction::Finish(f) && f.delete_old_record == deletes
        && f.new_target_id@ == target_id && f.history_old_owner == t.old_owner
        && f.history_new_owner == ctx.new_owner && f.history_action@ == "transferred"@
        && audit_is(f.audit, ctx.admin_username@, "SLUG_TRANSFER"@, "slug"@, ctx.slug@,
            Some(transfer_audit_detail(t.old_owner, ctx.new_owner)))
        && f.location@ == "/admin/slugs?success=Slug /"@ + ctx.slug@ + " successfully transferred to user "@
            + int_decimal(ctx.new_owner as int))
}

pub open spec fn ownership_of(t: Option<TransferTarget>) -> Option<SlugOwnership> {
    match t {
        Some(t) => Some(SlugOwnership { owner_user_id: t.old_owner, target_type: t.target_type }),
        None => None,
    }
}

pub open spec fn kind_word(target_type: Seq<char>, url_word: Seq<char>, page_word: Seq<char>) -> Seq<char> {
    if target_type == "url"@ { url_word } else { page_word }
}

fn refuse(message: &str) -> (r: (TransferState, TransferAction))
    ensures
        refused_with(r, message@),
{
    (TransferState::Done, TransferAction::Redirect(slugs_error_location(message)))
}

fn finish(ctx: &TransferCtx, t: TransferTarget, deletes: bool, target_id: String) -> (r: (TransferState, TransferAction))
    ensures
        finishes(*ctx, t, deletes, target_id@, r),
{
    let mut detail = join_text("Transferred from ", i64_decimal(t.old_owner).as_str());
    detail.append(" to ");
    let n = i64_decimal(ctx.new_owner);
    detail.append(n.as_str());
    let audit = audit_plan(ctx.admin_username.as_str(), "SLUG_TRANSFER", "slug", ctx.slug.as_str(), Some(detail));
    (
        TransferState::Done,
        TransferAction::Finish(TransferFinish {
            delete_old_record: deletes,
            new_target_id: target_id,
            history_old_owner: t.old_owner,
            history_new_owner: ctx.new_owner,
            history_action: String::from_str("transferred"),
            audit,
            location: slug_transferred_location(ctx.slug.as_str(), ctx.new_owner),
        }),
    )
}

fn is_record_kind(target_type: &str) -> (r: bool)
    ensures
        r == (target_type@ == "url"@ || target_type@ == "page"@),
{
    str_eq(target_type, "url") || str_eq(target_type, "page")
}

/// One step of a slug transfer.
///
/// A bad CSRF token, a new owner that does not exist, a slug that is not
/// registered, a slug the new owner already holds, databases that do not
/// open, a record that cannot be read, a new owner over quota and a failed
/// copy each redirect back with the error and change nothing. Only after a
/// good copy (or when there is no record to copy) does the transfer finish:
/// the old record is deleted, the registry points at the new owner, the
/// history row and the audit event are written.
pub fn transfer_step(state: TransferState, event: TransferEvent, ctx: &TransferCtx) -> (r: (TransferState, TransferAction))
    ensures
        r.1 is Ignore ==> r.0 == state,
        // nothing is written before the copy went through
        r.1 matches TransferAction::Finish(f) ==> (f.delete_old_record ==> state is AwaitCopy
            && event matches TransferEvent::Copied(Ok(_))),
        r.1 is CopyRecord ==> state is AwaitQuota,
        r.1 !is Ignore && r.0 is AwaitQuota ==> state is AwaitRecord,
        r.1 !is Ignore && r.0 is AwaitRecord ==> state is AwaitDatabases,
        r.1 !is Ignore && r.0 is AwaitDatabases ==> state is AwaitOwnership,
        r.1 !is Ignore && r.0 is AwaitOwnership ==> state is Begin && ctx.csrf_ok,
        // each transition
        state is Begin ==> match event {
            TransferEvent::Start => if ctx.csrf_ok {
                r.0 is AwaitOwnership && r.1 is ReadOwnership
            } else {
                refused_with(r, "Invalid CSRF token"@)
            },
            _ => r.1 is Ignore,
        },
        state is AwaitOwnership ==> match event {
            TransferEvent::OwnershipRead { new_owner_exists, current } => match transfer_refusal(
                new_owner_exists,
                ownership_of(current),
                ctx.new_owner,
            ) {
                Some(m) => refused_with(r, m),
                None => (r.0 matches TransferState::AwaitDatabases { target } && Some(target) == current)
                    && r.1 == TransferAction::OpenDatabases { old_owner: current->0.old_owner, new_owner: ctx.new_owner },
            },
            _ => r.1 is Ignore,
        },
        state matches TransferState::AwaitDatabases { target } ==> match event {
            TransferEvent::DatabasesOpened { old_ok, new_ok } => if !old_ok {
                refused_with(r, "Failed to load current owner's database"@)
            } else if !new_ok {
                refused_with(r, "Failed to load new owner's database"@)
            } else if target.target_type@ == "url"@ || target.target_type@ == "page"@ {
                r.0 == TransferState::AwaitRecord { target } && (r.1 matches TransferAction::ReadRecord { target_type }
                    && target_type@ == target.target_type@)
            } else {
                finishes(*ctx, target, false, target.target_id@, r)
            },
            _ => r.1 is Ignore,
        },
        state matches TransferState::AwaitRecord { target } ==> match event {
            TransferEvent::RecordRead(Err(e)) => refused_with(
                r,
                "Failed to retrieve old "@ + kind_word(target.target_type@, "URL"@, "page"@) + ": "@ + e@,
            ),
            TransferEvent::RecordRead(Ok(false)) => finishes(*ctx, target, false, target.target_id@, r),
            TransferEvent::RecordRead(Ok(true)) => r.0 == TransferState::AwaitQuota { target }
                && r.1 == TransferAction::ReadQuota { user_id: ctx.new_owner },
            _ => r.1 is Ignore,
        },
        state matches TransferState::AwaitQuota { target } ==> match event {
            TransferEvent::QuotaRead(q) => match transfer_quota_refusal(target.target_type@, q) {
                Some(m) => refused_with(r, m),
                None => r.0 == TransferState::AwaitCopy { target } && (r.1 matches TransferAction::CopyRecord {
                    target_type,
                } && target_type@ == target.target_type@),
            },
            _ => r.1 is Ignore,
        },
        state matches TransferState::AwaitCopy { target } ==> match event {
            TransferEvent::Copied(Err(e)) => refused_with(
                r,
                "Failed to copy "@ + kind_word(target.target_type@, "URL"@, "page"@) + " record: "@ + e@,
            ),
            TransferEvent::Copied(Ok(id)) => finishes(*ctx, target, true, id@, r),
            _ => r.1 is Ignore,
        },
        state is Done ==> r.1 is Ignore,
{
    match state {
        TransferState::Begin => match event {
            TransferEvent::Start => if ctx.csrf_ok {
                (TransferState::AwaitOwnership, TransferAction::ReadOwnership)
            } else {
                refuse("Invalid CSRF token")
            },
            _ => (TransferState::Begin, TransferAction::Ignore),
        },
        TransferState::AwaitOwnership => match event {
            TransferEvent::OwnershipRead { new_owner_exists, current } => {
                let own = match &current {
                    Some(t) => Some(SlugOwnership { owner_user_id: t.old_owner, target_type: t.target_type.clone() }),
                    None => None,
                };
                match transfer_precheck(new_owner_exists, &own, ctx.new_owner) {
                    Err(m) => refuse(m),
                    Ok(()) => match current {
                        Some(t) => {
                            let old = t.old_owner;
                            (
                                TransferState::AwaitDatabases { target: t },
                                TransferAction::OpenDatabases { old_owner: old, new_owner: ctx.new_owner },
                            )
                        },
                        None => refuse("Slug not found"),
                    },
                }
            },
            _ => (TransferState::AwaitOwnership, TransferAction::Ignore),
        },
        TransferState::AwaitDatabases { target } => match event {
            TransferEvent::DatabasesOpened { old_ok, new_ok } => if !old_ok {
                refuse("Failed to load current owner's database")
            } else if !new_ok {
                refuse("Failed to load new owner's database")
            } else if is_record_kind(target.target_type.as_str()) {
                let k = target.target_type.clone();
                (TransferState::AwaitRecord { target }, TransferAction::ReadRecord { target_type: k })
            } else {
                let id = target.target_id.clone();
                finish(ctx, target, false, id)
            },
            _ => (TransferState::AwaitDatabases { target }, TransferAction::Ignore),
        },
        TransferState::AwaitRecord { target } => match event {
            TransferEvent::RecordRead(Err(e)) => {
                let mut m = if str_eq(target.target_type.as_str(), "url") {
                    String::from_str("Failed to retrieve old URL: ")
                } else {
                    String::from_str("Failed to retrieve old page: ")
                };
                m.append(e.as_str());
                proof {
                    reveal_strlit("Failed to retrieve old URL: ");
                    reveal_strlit("Failed to retrieve old page: ");
                    reveal_strlit("Failed to retrieve old ");
                    reveal_strlit("URL");
                    reveal_strlit("page");
                    reveal_strlit(": ");
                }
                let r = refuse(m.as_str());
                assert(m@ == "Failed to retrieve old "@ + kind_word(target.target_type@, "URL"@, "page"@) + ": "@ + e@);
                r
            },
            TransferEvent::RecordRead(Ok(false)) => {
                let id = target.target_id.clone();
                finish(ctx, target, false, id)
            },
            TransferEvent::RecordRead(Ok(true)) => (
                TransferState::AwaitQuota { target },
                TransferAction::ReadQuota { user_id: ctx.new_owner },
            ),
            _ => (TransferState::AwaitRecord { target }, TransferAction::Ignore),
        },
        TransferState::AwaitQuota { target } => match event {
            TransferEvent::QuotaRead(q) => match transfer_quota_check(target.target_type.as_str(), &q) {
                Err(m) => refuse(m),
                Ok(()) => {
                    let k = target.target_type.clone();
                    (TransferState::AwaitCopy { target }, TransferAction::CopyRecord { target_type: k })
                },
            },
            _ => (TransferState::AwaitQuota { target }, TransferAction::Ignore),
        },
        TransferState::AwaitCopy { target } => match event {
            TransferEvent::Copied(Err(e)) => {
                let mut m = if str_eq(target.target_type.as_str(), "url") {
                    String::from_str("Failed to copy URL record: ")
                } else {
                    String::from_str("Failed to copy page record: ")
                };
                m.append(e.as_str());
                proof {
                    reveal_strlit("Failed to copy URL record: ");
                    reveal_strlit("Failed to copy page record: ");
                    reveal_strlit("Failed to copy ");
                    reveal_strlit("URL");
                    reveal_strlit("page");
                    reveal_strlit(" record: ");
                }
                let r = refuse(m.as_str());
                assert(m@ == "Failed to copy "@ + kind_word(target.target_type@, "URL"@, "page"@) + " record: "@ + e@);
                r
            },
            TransferEvent::Copied(Ok(id)) => finish(ctx, target, true, id),
            _ => (TransferState::AwaitCopy { target }, TransferAction::Ignore),
        },
        TransferState::Done => (TransferState::Done, TransferAction::Ignore),
    }
}

} // verus!
