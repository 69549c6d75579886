//! A user restoring their own backup from the settings page: the checks,
//! the temporary files, the registry check against other tenants' slugs,
//! and what is written only once the archive proved sound. Each step takes
//! the state and what the last outside operation answered, and says what to
//! do next.

use vstd::prelude::*;
use vstd::string::*;
use crate::auth::{audit_event_metadata, debug_opt_text};
use crate::backups::{
    plan_registry_restore, restore_gate, restore_gate_refusal, restore_page_path, restore_plan_spec,
    restore_temp_name, RegistryEntry, RestorePage, RestoredItem,
};
use crate::models::{audit_is, audit_plan, opt_string, AuditPlan};
use crate::records::{fresh_uuid, is_uuid_v4_text};
use crate::text::{int_decimal, i64_decimal, join_text};

verus! {

/// The submission and who makes it; the same at every step.
pub struct UserRestoreCtx {
    pub csrf_ok: bool,
    pub confirm_text: String,
    pub upload_len: usize,
    pub user_id: i64,
    pub username: String,
    pub ip: String,
    pub user_agent: Option<String>,
}

/// What was read from the unpacked archive: the account's tenant, whether
/// the archive holds `content.db`, and its links and pages, each with the
/// tenant that holds its slug in the registry now (if any).
pub struct UnpackedBackup {
    pub tenant: Option<String>,
    pub has_content_db: bool,
    pub urls: Vec<(RestoredItem, Option<String>)>,
    pub pages: Vec<(RestoredItem, Option<String>)>,
}

pub enum UserRestoreState {
    Begin,
    AwaitTempWrite { temp: String },
    AwaitUserDir { temp: String },
    AwaitUnpackDir { temp: String, unpack: String },
    AwaitUnpack { temp: String, unpack: String },
    AwaitUserDirCreated { unpack: String },
    AwaitCopy { unpack: String },
    Done,
}

pub enum UserRestoreEvent {
    Start,
    TempWritten(Result<(), String>),
    UserDirLocated(bool),
    UnpackDirCreated(Result<(), String>),
    /// The archive unpacked and read, or why not.
    Unpacked(Result<UnpackedBackup, String>),
    UserDirCreated(Result<(), String>),
    DatabasesCopied(Result<(), String>),
}

pub enum UserRestoreAction {
    /// Save the upload to this temporary file.
    WriteTemp { name: String },
    LocateUserDir,
    /// Create this temporary directory to unpack into.
    CreateUnpackDir { name: String },
    /// Unpack the archive and read it.
    UnpackAndRead,
    /// Redirect with the error; nothing was written.
    Redirect(String),
    /// Remove the temporary file and directory named, then redirect with the
    /// error; the registry and the account's databases are as they were.
    CleanupThenRedirect { temp_file: Option<String>, unpack_dir: Option<String>, location: String },
    /// Replace the tenant's registry rows with these, remove the temporary
    /// file, then create the account's directory.
    ApplyRegistry { tenant: String, urls: Vec<RegistryEntry>, pages: Vec<RegistryEntry>, temp_file: String },
    /// Copy `content.db`, `analytics.db` and `profile.db` (those unpacked)
    /// into the account's directory.
    CopyDatabases,
    /// Remove the unpacked directory, reconcile the account's quotas, drop
    /// its cached databases, write the audit event, redirect.
    Finish { unpack_dir: String, user_id: i64, audit: AuditPlan, location: String },
    Ignore,
}

/// The settings page's error redirect.
pub open spec fn settings_error(m: Seq<char>) -> Seq<char> {
    "/user/settings?error="@ + m
}

/// The archive cannot be used: remove both temporary copies and redirect
/// with `Restore failed: ` and the reason.
pub open spec fn fails_restore(r: (UserRestoreState, UserRestoreAction), temp: Seq<char>, unpack: Seq<char>, reason: Seq<char>) -> bool {
    r.0 is Done && (r.1 matches UserRestoreAction::CleanupThenRedirect { temp_file, unpack_dir, location }
        && opt_string(temp_file) == Some(temp) && opt_string(unpack_dir) == Some(unpack)
        && location@ == settings_error("Restore failed: "@ + reason))
}

fn fail_restore(temp: String, unpack: String, reason: &str) -> (r: (UserRestoreState, UserRestoreAction))
    ensures
        fails_restore(r, temp@, unpack@, reason@),
{
    let mut location = join_text("/user/settings?error=Restore failed: ", reason);
    proof {
        reveal_strlit("/user/settings?error=Restore failed: ");
        reveal_strlit("/user/settings?error=");
        reveal_strlit("Restore failed: ");
        assert("/user/settings?error=Restore failed: "@ =~= "/user/settings?error="@ + "Restore failed: "@);
        assert(location@ =~= "/user/settings?error="@ + ("Restore failed: "@ + reason@));
    }
    (
        UserRestoreState::Done,
        UserRestoreAction::CleanupThenRedirect { temp_file: Some(temp), unpack_dir: Some(unpack), location },
    )
}

fn redirect_error(prefix: &str, e: &str) -> (r: String)
    ensures
        r@ == settings_error(prefix@ + e@),
{
    let mut out = join_text("/user/settings?error=", prefix);
    out.append(e);
    proof {
        reveal_strlit("/user/settings?error=");
    }
    out
}

fn split_pairs(v: Vec<(RestoredItem, Option<String>)>) -> (r: (Vec<RestoredItem>, Vec<Option<String>>))
    ensures
        r.0@.len() == v@.len(),
        r.1@.len() == v@.len(),
        forall|i: int| 0 <= i < v@.len() ==> r.0@[i] == (#[trigger] v@[i]).0 && r.1@[i] == v@[i].1,
{
    let mut items: Vec<RestoredItem> = Vec::new();
    let mut owners: Vec<Option<String>> = Vec::new();
    let mut v = v;
    let ghost orig = v@;
    let mut k: usize = 0;
    assert(orig.len() == v.len());
    while v.len() > 0
        invariant
            k + v@.len() == orig.len(),
            orig.len() <= usize::MAX,
            v@ == orig.subrange(k as int, orig.len() as int),
            items@.len() == k,
            owners@.len() == k,
            forall|i: int| 0 <= i < k ==> items@[i] == (#[trigger] orig[i]).0 && owners@[i] == orig[i].1,
        decreases v@.len(),
    {
        let (it, ow) = v.remove(0);
        assert(orig[k as int] == (it, ow));
        items.push(it);
        owners.push(ow);
        k = k + 1;
    }
    (items, owners)
}

pub open spec fn plan_view(plan: Result<(Vec<RegistryEntry>, Vec<RegistryEntry>), String>) -> Result<(Seq<RegistryEntry>, Seq<RegistryEntry>), String> {
    match plan {
        Ok((u, p)) => Ok((u@, p@)),
        Err(e) => Err(e),
    }
}

/// The pairs' items and owners.
pub open spec fn items_of(v: Seq<(RestoredItem, Option<String>)>) -> Seq<RestoredItem> {
    v.map_values(|p: (RestoredItem, Option<String>)| p.0)
}

pub open spec fn owners_of(v: Seq<(RestoredItem, Option<String>)>) -> Seq<Option<String>> {
    v.map_values(|p: (RestoredItem, Option<String>)| p.1)
}

/// What the read archive leads to: no tenant, no `content.db`, or a slug
/// held by another tenant fails the restore; otherwise the registry rows to
/// write.
pub open spec fn unpacked_ok(
    b: UnpackedBackup,
    temp: Seq<char>,
    unpack: Seq<char>,
    r: (UserRestoreState, UserRestoreAction),
) -> bool {
    match b.tenant {
        None => fails_restore(r, temp, unpack, "User is missing assigned TenantId"@),
        Some(tenant) => if !b.has_content_db {
            fails_restore(r, temp, unpack, "Backup is missing content.db"@)
        } else {
            exists|plan: Result<(Seq<RegistryEntry>, Seq<RegistryEntry>), String>| {
                &&& #[trigger] restore_plan_spec(items_of(b.urls@), owners_of(b.urls@), items_of(b.pages@), owners_of(b.pages@), tenant@, plan)
                &&& match plan {
                    Err(e) => fails_restore(r, temp, unpack, e@),
                    Ok((u, p)) => (r.0 matches UserRestoreState::AwaitUserDirCreated { unpack: d } && d@ == unpack)
                        && (r.1 matches UserRestoreAction::ApplyRegistry { tenant: t, urls, pages, temp_file }
                        && t@ == tenant@ && urls@ == u && pages@ == p && temp_file@ == temp),
                }
            }
        },
    }
}

/// One step of a user's restore from the settings page.
///
/// Before anything is written: a bad CSRF token, a wrong confirmation text
/// and an empty upload redirect back. The upload is saved to a temporary
/// file and unpacked into a temporary directory; if the archive cannot be
/// used (it does not unpack, the account has no tenant, there is no
/// `content.db`, or one of its slugs is held by another tenant), both
/// temporary copies are removed and the page says `Restore failed:` with
/// the reason, with the registry and the account's databases untouched.
/// Only a sound archive rewrites the tenant's registry rows and is copied
/// into the account's directory.
pub fn user_restore_step(state: UserRestoreState, event: UserRestoreEvent, ctx: &UserRestoreCtx) -> (r: (
    UserRestoreState,
    UserRestoreAction,
))
    ensures
        r.1 is Ignore ==> r.0 == state,
        // the registry is only rewritten from a sound, read archive
        r.1 is ApplyRegistry ==> state is AwaitUnpack && event matches UserRestoreEvent::Unpacked(Ok(_)),
        r.1 is CopyDatabases ==> state is AwaitUserDirCreated,
        r.1 is Finish ==> state is AwaitCopy,
        state is Begin && event is Start ==> match restore_gate_refusal(RestorePage::UserSettings, ctx.csrf_ok,
            ctx.confirm_text@, ctx.upload_len as nat) {
            Some(m) => r.0 is Done && (r.1 matches UserRestoreAction::Redirect(l) && l@ == settings_error(m)),
            None => (r.0 matches UserRestoreState::AwaitTempWrite { temp } && (r.1 matches UserRestoreAction::WriteTemp {
                name,
            } && name == temp && exists|id: Seq<char>| is_uuid_v4_text(id) && name@ == "bzod_user_restore_"@ + id
                + ".tar.gz"@)),
        },
        state matches UserRestoreState::AwaitTempWrite { temp } ==> match event {
            UserRestoreEvent::TempWritten(Err(e)) => r.0 is Done && (r.1 matches UserRestoreAction::Redirect(l)
                && l@ == settings_error("Failed to write temp file: "@ + e@)),
            UserRestoreEvent::TempWritten(Ok(())) => r.0 == UserRestoreState::AwaitUserDir { temp }
                && r.1 is LocateUserDir,
            _ => r.1 is Ignore,
        },
        state matches UserRestoreState::AwaitUserDir { temp } ==> match event {
            UserRestoreEvent::UserDirLocated(false) => r.0 is Done && (r.1 matches UserRestoreAction::Redirect(l)
                && l@ == settings_error("Invalid user directory"@)),
            UserRestoreEvent::UserDirLocated(true) => (r.0 matches UserRestoreState::AwaitUnpackDir { temp: t, unpack }
                && t == temp && (r.1 matches UserRestoreAction::CreateUnpackDir { name } && name == unpack
                && exists|id: Seq<char>| is_uuid_v4_text(id) && name@ == "bzod_restore_unpack_"@ + id)),
            _ => r.1 is Ignore,
        },
        state matches UserRestoreState::AwaitUnpackDir { temp, unpack } ==> match event {
            UserRestoreEvent::UnpackDirCreated(Err(e)) => r.0 is Done && (r.1 matches UserRestoreAction::CleanupThenRedirect {
                temp_file,
                unpack_dir,
                location,
            } && temp_file == Some(temp) && unpack_dir is None
                && location@ == settings_error("Failed to create temp dir: "@ + e@)),
            UserRestoreEvent::UnpackDirCreated(Ok(())) => r.0 == UserRestoreState::AwaitUnpack { temp, unpack }
                && r.1 is UnpackAndRead,
            _ => r.1 is Ignore,
        },
        state matches UserRestoreState::AwaitUnpack { temp, unpack } ==> match event {
            UserRestoreEvent::Unpacked(Err(e)) => fails_restore(r, temp@, unpack@, e@),
            UserRestoreEvent::Unpacked(Ok(b)) => unpacked_ok(b, temp@, unpack@, r),
            _ => r.1 is Ignore,
        },
        state matches UserRestoreState::AwaitUserDirCreated { unpack } ==> match event {
            UserRestoreEvent::UserDirCreated(Err(e)) => r.0 is Done && (r.1 matches UserRestoreAction::CleanupThenRedirect {
                temp_file,
                unpack_dir,
                location,
            } && temp_file is None && unpack_dir == Some(unpack)
                && location@ == settings_error("Failed to create user directory: "@ + e@)),
            UserRestoreEvent::UserDirCreated(Ok(())) => r.0 == UserRestoreState::AwaitCopy { unpack }
                && r.1 is CopyDatabases,
            _ => r.1 is Ignore,
        },
        state matches UserRestoreState::AwaitCopy { unpack } ==> match event {
            UserRestoreEvent::DatabasesCopied(Err(e)) => r.0 is Done && (r.1 matches UserRestoreAction::CleanupThenRedirect {
                temp_file,
                unpack_dir,
                location,
            } && temp_file is None && unpack_dir == Some(unpack)
                && location@ == settings_error("Failed to copy database: "@ + e@)),
            UserRestoreEvent::DatabasesCopied(Ok(())) => r.0 is Done && (r.1 matches UserRestoreAction::Finish {
                unpack_dir,
                user_id,
                audit,
                location,
            } && unpack_dir == unpack && user_id == ctx.user_id
                && audit_is(audit, ctx.username@, "USER_RESTORE"@, "user"@, int_decimal(ctx.user_id as int), Some(
                "IP: "@ + debug_opt_text(Some(ctx.ip@)) + ", UA: "@ + debug_opt_text(opt_string(ctx.user_agent)),
            )) && location@ == "/user/settings?success=User database restored successfully"@),
            _ => r.1 is Ignore,
        },
        state is Done ==> r.1 is Ignore,
{
    match state {
        UserRestoreState::Begin => match event {
            UserRestoreEvent::Start => {
                match restore_gate(RestorePage::UserSettings, ctx.csrf_ok, ctx.confirm_text.as_str(), ctx.upload_len) {
                    Some(l) => {
                        proof {
                            reveal_strlit("/user/settings");
                            reveal_strlit("?error=");
                            reveal_strlit("/user/settings?error=");
                            assert("/user/settings?error="@ =~= "/user/settings"@ + "?error="@);
                        }
                        (UserRestoreState::Done, UserRestoreAction::Redirect(l))
                    },
                    None => {
                        let name = restore_temp_name(RestorePage::UserSettings);
                        let temp = name.clone();
                        (UserRestoreState::AwaitTempWrite { temp }, UserRestoreAction::WriteTemp { name })
                    },
                }
            },
            _ => (UserRestoreState::Begin, UserRestoreAction::Ignore),
        },
        UserRestoreState::AwaitTempWrite { temp } => match event {
            UserRestoreEvent::TempWritten(Err(e)) => (
                UserRestoreState::Done,
                UserRestoreAction::Redirect(redirect_error("Failed to write temp file: ", e.as_str())),
            ),
            UserRestoreEvent::TempWritten(Ok(())) => (UserRestoreState::AwaitUserDir { temp }, UserRestoreAction::LocateUserDir),
            _ => (UserRestoreState::AwaitTempWrite { temp }, UserRestoreAction::Ignore),
        },
        UserRestoreState::AwaitUserDir { temp } => match event {
            UserRestoreEvent::UserDirLocated(false) => (
                UserRestoreState::Done,
                UserRestoreAction::Redirect(join_text("/user/settings?error=", "Invalid user directory")),
            ),
            UserRestoreEvent::UserDirLocated(true) => {
                let id = fresh_uuid();
                let name = join_text("bzod_restore_unpack_", id.as_str());
                let unpack = name.clone();
                (UserRestoreState::AwaitUnpackDir { temp, unpack }, UserRestoreAction::CreateUnpackDir { name })
            },
            _ => (UserRestoreState::AwaitUserDir { temp }, UserRestoreAction::Ignore),
        },
        UserRestoreState::AwaitUnpackDir { temp, unpack } => match event {
            UserRestoreEvent::UnpackDirCreated(Err(e)) => (
                UserRestoreState::Done,
                UserRestoreAction::CleanupThenRedirect {
                    temp_file: Some(temp),
                    unpack_dir: None,
                    location: redirect_error("Failed to create temp dir: ", e.as_str()),
                },
            ),
            UserRestoreEvent::UnpackDirCreated(Ok(())) => (
                UserRestoreState::AwaitUnpack { temp, unpack },
                UserRestoreAction::UnpackAndRead,
            ),
            _ => (UserRestoreState::AwaitUnpackDir { temp, unpack }, UserRestoreAction::Ignore),
        },
        UserRestoreState::AwaitUnpack { temp, unpack } => match event {
            UserRestoreEvent::Unpacked(Err(e)) => fail_restore(temp, unpack, e.as_str()),
            UserRestoreEvent::Unpacked(Ok(b)) => {
                let ghost gb = b;
                let tenant = match b.tenant {
                    None => return fail_restore(temp, unpack, "User is missing assigned TenantId"),
                    Some(t) => t,
                };
                if !b.has_content_db {
                    return fail_restore(temp, unpack, "Backup is missing content.db");
                }
                let (url_items, url_owners) = split_pairs(b.urls);
                let (page_items, page_owners) = split_pairs(b.pages);
                assert(url_items@ =~= items_of(gb.urls@));
                assert(url_owners@ =~= owners_of(gb.urls@));
                assert(page_items@ =~= items_of(gb.pages@));
                assert(page_owners@ =~= owners_of(gb.pages@));
                let plan = plan_registry_restore(url_items, &url_owners, page_items, &page_owners, tenant.as_str());
                let ghost gplan = plan_view(plan);
                match plan {
                    Err(e) => {
                        let r = fail_restore(temp, unpack, e.as_str());
                        assert(restore_plan_spec(items_of(gb.urls@), owners_of(gb.urls@), items_of(gb.pages@),
                            owners_of(gb.pages@), tenant@, gplan));
                        r
                    },
                    Ok((u, p)) => {
                        let d = unpack.clone();
                        let r = (
                            UserRestoreState::AwaitUserDirCreated { unpack: d },
                            UserRestoreAction::ApplyRegistry { tenant, urls: u, pages: p, temp_file: temp },
                        );
                        assert(restore_plan_spec(items_of(gb.urls@), owners_of(gb.urls@), items_of(gb.pages@),
                            owners_of(gb.pages@), gb.tenant->0@, gplan));
                        r
                    },
                }
            },
            _ => (UserRestoreState::AwaitUnpack { temp, unpack }, UserRestoreAction::Ignore),
        },
        UserRestoreState::AwaitUserDirCreated { unpack } => match event {
            UserRestoreEvent::UserDirCreated(Err(e)) => (
                UserRestoreState::Done,
                UserRestoreAction::CleanupThenRedirect {
                    temp_file: None,
                    unpack_dir: Some(unpack),
                    location: redirect_error("Failed to create user directory: ", e.as_str()),
                },
            ),
            UserRestoreEvent::UserDirCreated(Ok(())) => (UserRestoreState::AwaitCopy { unpack }, UserRestoreAction::CopyDatabases),
            _ => (UserRestoreState::AwaitUserDirCreated { unpack }, UserRestoreAction::Ignore),
        },
        UserRestoreState::AwaitCopy { unpack } => match event {
            UserRestoreEvent::DatabasesCopied(Err(e)) => (
                UserRestoreState::Done,
                UserRestoreAction::CleanupThenRedirect {
                    temp_file: None,
                    unpack_dir: Some(unpack),
                    location: redirect_error("Failed to copy database: ", e.as_str()),
                },
            ),
            UserRestoreEvent::DatabasesCopied(Ok(())) => {
                let ua = match &ctx.user_agent {
                    Some(s) => Some(s.as_str()),
                    None => None,
                };
                let meta = audit_event_metadata(Some(ctx.ip.as_str()), ua);
                let id_text = i64_decimal(ctx.user_id);
                let audit = audit_plan(ctx.username.as_str(), "USER_RESTORE", "user", id_text.as_str(), Some(meta));
                (
                    UserRestoreState::Done,
                    UserRestoreAction::Finish {
                        unpack_dir: unpack,
                        user_id: ctx.user_id,
                        audit,
                        location: String::from_str("/user/settings?success=User database restored successfully"),
                    },
                )
            },
            _ => (UserRestoreState::AwaitCopy { unpack }, UserRestoreAction::Ignore),
        },
        UserRestoreState::Done => (UserRestoreState::Done, UserRestoreAction::Ignore),
    }
}

} // verus!
