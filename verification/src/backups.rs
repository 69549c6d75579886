//! Backups and restores: which archive names are served, the files an
//! archive holds, the confirmation a restore needs, and how a tenant's
//! restored links and pages go back into the global slug registry.

use vstd::prelude::*;
use vstd::string::*;
use crate::records::{fresh_uuid, is_uuid_v4_text};
use crate::listing::{ListingRow, SortKey, key_by, sort_descending, stable_descending};
use crate::text::{contains_char, contains_str, contains_text, ends_with, has_suffix, join_text, str_eq, trim_str, trimmed};

verus! {

/// A backup archive found in the backup directory.
pub struct BackupFileRow {
    pub filename: String,
    pub size_str: String,
    pub created_str: String,
}

/// A recorded backup run.
pub struct BackupHistoryRow {
    pub id: String,
    pub backup_path: String,
    pub status: String,
    pub created_at: String,
    pub size_bytes: i64,
    pub error_message: Option<String>,
}

impl ListingRow for BackupFileRow {
    open spec fn listing_key(&self, by: SortKey) -> Seq<char> {
        self.filename@
    }

    fn listing_key_str(&self, by: SortKey) -> (r: &str) {
        self.filename.as_str()
    }
}

/// Backup archives are listed by name, the latest (greatest) first.
pub fn sort_backup_files(rows: Vec<BackupFileRow>) -> (r: Vec<BackupFileRow>)
    ensures
        stable_descending(rows@, r@, key_by::<BackupFileRow>(SortKey::Name)),
{
    sort_descending(rows, SortKey::Name)
}

/// Only `.tar.gz` files of the backup directory are listed.
pub fn is_backup_archive(filename: &str) -> (r: bool)
    ensures
        r == has_suffix(filename@, ".tar.gz"@),
{
    ends_with(filename, ".tar.gz")
}

/// A requested archive name stays inside the backup directory: no `/`, no
/// `\`, no `..`.
pub open spec fn safe_archive_name(name: Seq<char>) -> bool {
    !name.contains('/') && !name.contains('\\') && !contains_text(name, ".."@)
}

pub fn is_safe_archive_name(filename: &str) -> (r: bool)
    ensures
        r == safe_archive_name(filename@),
{
    !contains_char(filename, '/') && !contains_char(filename, '\\') && !contains_str(filename, "..")
}

/// What an archive download request leads to.
pub enum DownloadStep {
    /// Answer at once; nothing is read from disk.
    Reply(crate::models::Reply),
    /// Look for the archive in the backup directory.
    Locate,
}

/// An archive download: `401` without an admin session, `400` for a name
/// that could leave the backup directory; only then is the disk looked at.
pub fn backup_download_step(authenticated: bool, filename: &str) -> (r: DownloadStep)
    ensures
        !authenticated ==> (r matches DownloadStep::Reply(rep) && crate::redirect::reply_is(rep, 401, None, Seq::empty())),
        authenticated && !safe_archive_name(filename@) ==> (r matches DownloadStep::Reply(rep)
            && crate::redirect::reply_is(rep, 400, None, Seq::empty())),
        authenticated && safe_archive_name(filename@) ==> r is Locate,
{
    if !authenticated {
        DownloadStep::Reply(crate::redirect::bare_reply(401, None))
    } else if !is_safe_archive_name(filename) {
        DownloadStep::Reply(crate::redirect::bare_reply(400, None))
    } else {
        DownloadStep::Locate
    }
}

/// How a located download ends.
pub enum DownloadEnd {
    Reply(crate::models::Reply),
    /// Send the archive's bytes with these headers.
    Send { content_type: String, content_disposition: String },
}

/// After looking on disk: a missing archive is `404`, an unreadable one
/// `500`; a read archive is sent as an attachment under its name.
pub fn backup_download_end(found: bool, read_ok: bool, filename: &str) -> (r: DownloadEnd)
    ensures
        !found ==> (r matches DownloadEnd::Reply(rep) && crate::redirect::reply_is(rep, 404, None, Seq::empty())),
        found && !read_ok ==> (r matches DownloadEnd::Reply(rep) && crate::redirect::reply_is(rep, 500, None, Seq::empty())),
        found && read_ok ==> (r matches DownloadEnd::Send { content_type, content_disposition }
            && content_type@ == "application/octet-stream"@
            && content_disposition@ == "attachment; filename=\""@ + filename@ + "\""@),
{
    if !found {
        DownloadEnd::Reply(crate::redirect::bare_reply(404, None))
    } else if !read_ok {
        DownloadEnd::Reply(crate::redirect::bare_reply(500, None))
    } else {
        DownloadEnd::Send {
            content_type: String::from_str("application/octet-stream"),
            content_disposition: attachment_disposition(filename),
        }
    }
}

/// The `Content-Disposition` of a download.
pub fn attachment_disposition(filename: &str) -> (r: String)
    ensures
        r@ == "attachment; filename=\""@ + filename@ + "\""@,
{
    let mut out = join_text("attachment; filename=\"", filename);
    out.append("\"");
    out
}

/// The name of the platform backup taken on a day (`YYYY-MM-DD`).
pub fn platform_backup_filename(date: &str) -> (r: String)
    ensures
        r@ == date@ + "-bzod-backup.tar.gz"@,
{
    join_text(date, "-bzod-backup.tar.gz")
}

/// The name of a tenant's own backup taken on a day.
pub fn user_backup_filename(date: &str) -> (r: String)
    ensures
        r@ == "user-"@ + date@ + "-bzod-backup.tar.gz"@,
{
    let mut out = join_text("user-", date);
    out.append("-bzod-backup.tar.gz");
    out
}

/// The databases of a tenant backup, in archive order.
pub fn user_backup_files() -> (r: Vec<&'static str>)
    ensures
        r@.len() == 3,
        r@[0]@ == "content.db"@,
        r@[1]@ == "analytics.db"@,
        r@[2]@ == "profile.db"@,
{
    let mut v: Vec<&'static str> = Vec::new();
    v.push("content.db");
    v.push("analytics.db");
    v.push("profile.db");
    v
}

/// The databases of the flat platform backup: the name inside the archive
/// and the path under the data directory, in archive order.
pub fn platform_backup_files() -> (r: Vec<(&'static str, &'static str)>)
    ensures
        r@.len() == 5,
        r@[0].0@ == "admin.db"@ && r@[0].1@ == "admin/admin.db"@,
        r@[1].0@ == "system.db"@ && r@[1].1@ == "admin/system.db"@,
        r@[2].0@ == "users.db"@ && r@[2].1@ == "admin/users.db"@,
        r@[3].0@ == "content.db"@ && r@[3].1@ == "users/1/content.db"@,
        r@[4].0@ == "analytics.db"@ && r@[4].1@ == "users/1/analytics.db"@,
{
    let mut v: Vec<(&'static str, &'static str)> = Vec::new();
    v.push(("admin.db", "admin/admin.db"));
    v.push(("system.db", "admin/system.db"));
    v.push(("users.db", "admin/users.db"));
    v.push(("content.db", "users/1/content.db"));
    v.push(("analytics.db", "users/1/analytics.db"));
    v
}

// ---------------------------------------------------------------------------
// Restores
// ---------------------------------------------------------------------------

/// A restore goes ahead only when `RESTORE` was typed (surrounding blanks
/// aside) and an archive was uploaded; the messages are those of the
/// settings pages.
pub open spec fn restore_refusal(confirm_text: Seq<char>, upload_len: nat) -> Option<Seq<char>> {
    if trimmed(confirm_text) != "RESTORE"@ {
        Some("Confirmation text must be exactly 'RESTORE'"@)
    } else if upload_len == 0 {
        Some("No backup file uploaded"@)
    } else {
        None
    }
}

pub fn restore_precheck(confirm_text: &str, upload_len: usize) -> (r: Result<(), &'static str>)
    ensures
        match restore_refusal(confirm_text@, upload_len as nat) {
            Some(m) => r is Err && r->Err_0@ == m,
            None => r is Ok,
        },
{
    if !str_eq(trim_str(confirm_text), "RESTORE") {
        return Err("Confirmation text must be exactly 'RESTORE'");
    }
    if upload_len == 0 {
        return Err("No backup file uploaded");
    }
    Ok(())
}

/// The backups page words the same two refusals its own way.
pub open spec fn backups_page_refusal(confirm_text: Seq<char>, upload_len: nat) -> Option<Seq<char>> {
    if trimmed(confirm_text) != "RESTORE"@ {
        Some("Confirmation text mismatch. Please type RESTORE."@)
    } else if upload_len == 0 {
        Some("Backup file is empty or missing."@)
    } else {
        None
    }
}

pub fn backups_page_restore_precheck(confirm_text: &str, upload_len: usize) -> (r: Result<(), &'static str>)
    ensures
        match backups_page_refusal(confirm_text@, upload_len as nat) {
            Some(m) => r is Err && r->Err_0@ == m,
            None => r is Ok,
        },
{
    if !str_eq(trim_str(confirm_text), "RESTORE") {
        return Err("Confirmation text mismatch. Please type RESTORE.");
    }
    if upload_len == 0 {
        return Err("Backup file is empty or missing.");
    }
    Ok(())
}

/// The page a restore is submitted from.
#[derive(PartialEq, Eq, Structural, Clone, Copy)]
pub enum RestorePage {
    UserSettings,
    AdminSettings,
    AdminBackups,
}

pub open spec fn restore_page_path(p: RestorePage) -> Seq<char> {
    match p {
        RestorePage::UserSettings => "/user/settings"@,
        RestorePage::AdminSettings => "/admin/settings"@,
        RestorePage::AdminBackups => "/admin/backups"@,
    }
}

/// Why a restore submission is turned away, checked in this order: the CSRF
/// token, then the confirmation text, then the upload.
pub open spec fn restore_gate_refusal(page: RestorePage, csrf_ok: bool, confirm_text: Seq<char>, upload_len: nat) -> Option<Seq<char>> {
    if !csrf_ok {
        Some("Invalid CSRF token"@)
    } else if page == RestorePage::AdminBackups {
        backups_page_refusal(confirm_text, upload_len)
    } else {
        restore_refusal(confirm_text, upload_len)
    }
}

/// The checks in front of every restore. `Some` is the redirect back to the
/// page with the error: the submission stops there, before any temporary
/// file is written, anything is audited or any database is touched. `None`
/// lets the restore go ahead.
pub fn restore_gate(page: RestorePage, csrf_ok: bool, confirm_text: &str, upload_len: usize) -> (r: Option<String>)
    ensures
        match restore_gate_refusal(page, csrf_ok, confirm_text@, upload_len as nat) {
            Some(m) => r is Some && r->0@ == restore_page_path(page) + "?error="@ + m,
            None => r is None,
        },
{
    let base = match page {
        RestorePage::UserSettings => "/user/settings?error=",
        RestorePage::AdminSettings => "/admin/settings?error=",
        RestorePage::AdminBackups => "/admin/backups?error=",
    };
    proof {
        reveal_strlit("/user/settings?error=");
        reveal_strlit("/admin/settings?error=");
        reveal_strlit("/admin/backups?error=");
        reveal_strlit("/user/settings");
        reveal_strlit("/admin/settings");
        reveal_strlit("/admin/backups");
        reveal_strlit("?error=");
    }
    assert(base@ == restore_page_path(page) + "?error="@);
    if !csrf_ok {
        return Some(join_text(base, "Invalid CSRF token"));
    }
    let checked = if page == RestorePage::AdminBackups {
        backups_page_restore_precheck(confirm_text, upload_len)
    } else {
        restore_precheck(confirm_text, upload_len)
    };
    match checked {
        Err(m) => Some(join_text(base, m)),
        Ok(()) => None,
    }
}

/// The temporary file an uploaded archive is saved to before it is
/// unpacked: on the settings pages a fresh UUID keeps concurrent restores
/// apart; the backups page uses one fixed name under the data directory.
pub fn restore_temp_name(page: RestorePage) -> (r: String)
    ensures
        page == RestorePage::AdminBackups ==> r@ == "temp-restore-upload.tar.gz"@,
        page != RestorePage::AdminBackups ==> exists|id: Seq<char>| is_uuid_v4_text(id) && r@ == (if page
            == RestorePage::UserSettings {
            "bzod_user_restore_"@
        } else {
            "bzod_restore_"@
        }) + id + ".tar.gz"@,
{
    if page == RestorePage::AdminBackups {
        return String::from_str("temp-restore-upload.tar.gz");
    }
    let id = fresh_uuid();
    let mut out = if page == RestorePage::UserSettings {
        String::from_str("bzod_user_restore_")
    } else {
        String::from_str("bzod_restore_")
    };
    out.append(id.as_str());
    out.append(".tar.gz");
    assert(is_uuid_v4_text(id@));
    out
}

/// A link or page read from a restored content database.
pub struct RestoredItem {
    pub slug: String,
    pub target_id: String,
    pub created_at: String,
    /// The link's status, or the page's state.
    pub status: String,
}

/// A registry entry written back for a restored item.
pub struct RegistryEntry {
    pub slug: String,
    pub target_id: String,
    pub created_at: String,
    pub status: &'static str,
}

/// A link marked `dead` is registered as `disabled`, any other as `active`.
pub open spec fn url_registry_status(status: Seq<char>) -> Seq<char> {
    if status == "dead"@ {
        "disabled"@
    } else {
        "active"@
    }
}

/// A `published` page is registered as `active`, any other as `disabled`.
pub open spec fn page_registry_status(state: Seq<char>) -> Seq<char> {
    if state == "published"@ {
        "active"@
    } else {
        "disabled"@
    }
}

/// A slug collides when the registry already gives it to another tenant.
pub open spec fn collides(owner: Option<String>, tenant: Seq<char>) -> bool {
    owner is Some && owner->0@ != tenant
}

/// The first colliding position, if any.
pub open spec fn first_collision(owners: Seq<Option<String>>, tenant: Seq<char>) -> Option<int>
    decreases owners.len(),
{
    if owners.len() == 0 {
        None
    } else {
        match first_collision(owners.drop_last(), tenant) {
            Some(i) => Some(i),
            None => if collides(owners.last(), tenant) {
                Some(owners.len() - 1)
            } else {
                None
            },
        }
    }
}

proof fn lemma_first_collision_range(owners: Seq<Option<String>>, tenant: Seq<char>)
    ensures
        first_collision(owners, tenant) matches Some(i) ==> 0 <= i < owners.len(),
    decreases owners.len(),
{
    if owners.len() > 0 {
        lemma_first_collision_range(owners.drop_last(), tenant);
    }
}

proof fn lemma_first_collision_none(owners: Seq<Option<String>>, tenant: Seq<char>)
    requires
        forall|i: int| 0 <= i < owners.len() ==> !collides(#[trigger] owners[i], tenant),
    ensures
        first_collision(owners, tenant) is None,
    decreases owners.len(),
{
    if owners.len() > 0 {
        lemma_first_collision_none(owners.drop_last(), tenant);
    }
}

proof fn lemma_first_collision_at(owners: Seq<Option<String>>, tenant: Seq<char>, k: int)
    requires
        0 <= k < owners.len(),
        collides(owners[k], tenant),
        forall|i: int| 0 <= i < k ==> !collides(#[trigger] owners[i], tenant),
    ensures
        first_collision(owners, tenant) == Some(k),
    decreases owners.len(),
{
    if k < owners.len() - 1 {
        lemma_first_collision_at(owners.drop_last(), tenant, k);
    } else {
        lemma_first_collision_none(owners.drop_last(), tenant);
    }
}

/// Position of the first item whose slug another tenant holds.
fn find_collision(owners: &Vec<Option<String>>, tenant: &str) -> (r: Option<usize>)
    ensures
        match first_collision(owners@, tenant@) {
            Some(i) => r == Some(i as usize),
            None => r is None,
        },
        r matches Some(i) ==> i < owners@.len(),
{
    let mut i: usize = 0;
    while i < owners.len()
        invariant
            i <= owners.len(),
            forall|j: int| 0 <= j < i ==> !collides(#[trigger] owners@[j], tenant@),
        decreases owners.len() - i,
    {
        let c = match &owners[i] {
            Some(o) => !str_eq(o.as_str(), tenant),
            None => false,
        };
        if c {
            proof {
                lemma_first_collision_at(owners@, tenant@, i as int);
            }
            return Some(i);
        }
        i = i + 1;
    }
    proof {
        lemma_first_collision_none(owners@, tenant@);
    }
    None
}

/// What a tenant restore writes to the registry, or why it stops: the first
/// link slug held by another tenant, then the first page slug.
pub open spec fn restore_plan_spec(
    urls: Seq<RestoredItem>,
    url_owners: Seq<Option<String>>,
    pages: Seq<RestoredItem>,
    page_owners: Seq<Option<String>>,
    tenant: Seq<char>,
    r: Result<(Seq<RegistryEntry>, Seq<RegistryEntry>), String>,
) -> bool {
    match first_collision(url_owners, tenant) {
        Some(i) => r is Err && r->Err_0@ == "Slug collision on URL /"@ + urls[i].slug@,
        None => match first_collision(page_owners, tenant) {
            Some(i) => r is Err && r->Err_0@ == "Slug collision on Landing Page /"@ + pages[i].slug@,
            None => r is Ok && {
                let (u, p) = r->Ok_0;
                &&& u.len() == urls.len()
                &&& p.len() == pages.len()
                &&& forall|k: int| 0 <= k < u.len() ==> {
                    let (e, it) = (#[trigger] u[k], urls[k]);
                    e.slug == it.slug && e.target_id == it.target_id && e.created_at == it.created_at
                        && e.status@ == url_registry_status(it.status@)
                }
                &&& forall|k: int| 0 <= k < p.len() ==> {
                    let (e, it) = (#[trigger] p[k], pages[k]);
                    e.slug == it.slug && e.target_id == it.target_id && e.created_at == it.created_at
                        && e.status@ == page_registry_status(it.status@)
                }
            },
        },
    }
}

fn registry_entries(items: Vec<RestoredItem>, pages: bool) -> (r: Vec<RegistryEntry>)
    ensures
        r@.len() == items@.len(),
        forall|k: int| 0 <= k < r@.len() ==> {
            let (e, it) = (#[trigger] r@[k], items@[k]);
            e.slug == it.slug && e.target_id == it.target_id && e.created_at == it.created_at
                && e.status@ == if pages {
                page_registry_status(it.status@)
            } else {
                url_registry_status(it.status@)
            }
        },
{
    let ghost orig = items@;
    let mut items = items;
    let mut out: Vec<RegistryEntry> = Vec::new();
    assert(orig.len() == items.len());
    while items.len() > 0
        invariant
            out.len() + items.len() == orig.len(),
            items@ == orig.subrange(out.len() as int, orig.len() as int),
            forall|k: int| 0 <= k < out@.len() ==> {
                let (e, it) = (#[trigger] out@[k], orig[k]);
                e.slug == it.slug && e.target_id == it.target_id && e.created_at == it.created_at
                    && e.status@ == if pages {
                    page_registry_status(it.status@)
                } else {
                    url_registry_status(it.status@)
                }
            },
        decreases items.len(),
    {
        let it = items.remove(0);
        let status: &'static str = if pages {
            if str_eq(it.status.as_str(), "published") {
                "active"
            } else {
                "disabled"
            }
        } else {
            if str_eq(it.status.as_str(), "dead") {
                "disabled"
            } else {
                "active"
            }
        };
        out.push(RegistryEntry { slug: it.slug, target_id: it.target_id, created_at: it.created_at, status });
        assert(items@ =~= orig.subrange(out.len() as int, orig.len() as int));
    }
    out
}

/// Plans the registry side of a tenant restore from the restored items and
/// the registry's current owner of each slug (in the same order).
pub fn plan_registry_restore(
    urls: Vec<RestoredItem>,
    url_owners: &Vec<Option<String>>,
    pages: Vec<RestoredItem>,
    page_owners: &Vec<Option<String>>,
    tenant: &str,
) -> (r: Result<(Vec<RegistryEntry>, Vec<RegistryEntry>), String>)
    requires
        url_owners@.len() == urls@.len(),
        page_owners@.len() == pages@.len(),
    ensures
        restore_plan_spec(
            urls@,
            url_owners@,
            pages@,
            page_owners@,
            tenant@,
            match r {
                Ok((u, p)) => Ok((u@, p@)),
                Err(e) => Err(e),
            },
        ),
{
    proof {
        lemma_first_collision_range(url_owners@, tenant@);
        lemma_first_collision_range(page_owners@, tenant@);
    }
    if let Some(i) = find_collision(url_owners, tenant) {
        return Err(join_text("Slug collision on URL /", urls[i].slug.as_str()));
    }
    if let Some(i) = find_collision(page_owners, tenant) {
        return Err(join_text("Slug collision on Landing Page /", pages[i].slug.as_str()));
    }
    let u = registry_entries(urls, false);
    let p = registry_entries(pages, true);
    Ok((u, p))
}

proof fn lemma_first_collision_none_all(owners: Seq<Option<String>>, tenant: Seq<char>)
    requires
        first_collision(owners, tenant) is None,
    ensures
        forall|i: int| 0 <= i < owners.len() ==> !collides(#[trigger] owners[i], tenant),
    decreases owners.len(),
{
    if owners.len() > 0 {
        lemma_first_collision_none_all(owners.drop_last(), tenant);
        assert forall|i: int| 0 <= i < owners.len() implies !collides(#[trigger] owners[i], tenant) by {
            if i < owners.len() - 1 {
                assert(owners[i] == owners.drop_last()[i]);
            }
        }
    }
}

/// A tenant restore that goes ahead never takes a slug the registry gives to
/// another tenant: every restored slug is either free or already the
/// tenant's own, so slugs stay globally unique.
pub proof fn law_restore_never_takes_foreign_slug(
    urls: Seq<RestoredItem>,
    url_owners: Seq<Option<String>>,
    pages: Seq<RestoredItem>,
    page_owners: Seq<Option<String>>,
    tenant: Seq<char>,
    r: Result<(Seq<RegistryEntry>, Seq<RegistryEntry>), String>,
)
    requires
        restore_plan_spec(urls, url_owners, pages, page_owners, tenant, r),
        r is Ok,
    ensures
        forall|i: int| 0 <= i < url_owners.len() ==> !collides(#[trigger] url_owners[i], tenant),
        forall|i: int| 0 <= i < page_owners.len() ==> !collides(#[trigger] page_owners[i], tenant),
{
    lemma_first_collision_none_all(url_owners, tenant);
    lemma_first_collision_none_all(page_owners, tenant);
}

/// A restored link is live in the registry exactly when its own record is
/// not dead, and a restored page exactly when it is published.
pub proof fn law_restore_keeps_liveness(status: Seq<char>, state: Seq<char>)
    ensures
        (url_registry_status(status) == "active"@) == (status != "dead"@),
        (page_registry_status(state) == "active"@) == (state == "published"@),
{
    reveal_strlit("active");
    reveal_strlit("disabled");
    assert("active"@[0] != "disabled"@[0]);
}

} // verus!
