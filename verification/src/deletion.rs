//! Deleting an account from the admin API: what goes, in which order.

use vstd::prelude::*;
use vstd::string::*;
use crate::models::{audit_is, audit_plan, AuditPlan, TenantUser};
use crate::text::{i64_decimal, int_decimal, join_text, texts};
use crate::users::delete_user_guard;

verus! {

/// A registry slug the account held, to delete with a history row.
pub struct SlugRemoval {
    pub slug: String,
    /// From `global_landing_pages` (else `global_urls`).
    pub is_page: bool,
}

/// What deleting an account does, in this order: delete each registry slug
/// and record it in the slug history (action `deleted`, old owner the
/// account, no new owner, at `timestamp`, by the admin), remove the
/// account's directory, delete the account row, write the audit event.
pub struct DeletionPlan {
    pub removals: Vec<SlugRemoval>,
    pub history_old_owner: i64,
    pub history_action: String,
    pub timestamp: String,
    pub admin_username: String,
    pub user_id: i64,
    pub audit: AuditPlan,
}

/// The slugs an account loses: its link slugs then its page slugs, when it
/// has a tenant (an account without one holds none).
pub open spec fn removal_slugs(user: TenantUser, url_slugs: Seq<Seq<char>>, page_slugs: Seq<Seq<char>>) -> Seq<(Seq<char>, bool)> {
    if user.tenant_id is Some {
        url_slugs.map_values(|s: Seq<char>| (s, false)) + page_slugs.map_values(|s: Seq<char>| (s, true))
    } else {
        Seq::empty()
    }
}

pub open spec fn removal_view(r: SlugRemoval) -> (Seq<char>, bool) {
    (r.slug@, r.is_page)
}

fn push_removals(out: &mut Vec<SlugRemoval>, slugs: Vec<String>, is_page: bool)
    ensures
        final(out)@.map_values(|r: SlugRemoval| removal_view(r)) == old(out)@.map_values(|r: SlugRemoval| removal_view(r))
            + texts(slugs@).map_values(|s: Seq<char>| (s, is_page)),
{
    let ghost start = out@.map_values(|r: SlugRemoval| removal_view(r));
    let ghost want = texts(slugs@).map_values(|s: Seq<char>| (s, is_page));
    let mut i: usize = 0;
    while i < slugs.len()
        invariant
            i <= slugs.len(),
            want == texts(slugs@).map_values(|s: Seq<char>| (s, is_page)),
            out@.map_values(|r: SlugRemoval| removal_view(r)) == start + want.take(i as int),
        decreases slugs.len() - i,
    {
        let ghost before = out@;
        out.push(SlugRemoval { slug: slugs[i].clone(), is_page });
        proof {
            assert(want.take(i + 1) =~= want.take(i as int).push(want[i as int]));
            assert(out@.map_values(|r: SlugRemoval| removal_view(r)) =~= before.map_values(
                |r: SlugRemoval| removal_view(r),
            ).push(removal_view(out@[i as int + before.len() - i as int])));
        }
        i = i + 1;
    }
    assert(want.take(slugs.len() as int) =~= want);
}

/// Deleting account `target_id`. The protected account 1 needs `force`;
/// `lookup` is the account as read (`Err` with the storage error);
/// `url_slugs` and `page_slugs` the registry slugs of its tenant. A missing
/// account is `User not found`, and nothing is deleted on any error.
pub fn user_deletion_plan(
    target_id: i64,
    force: bool,
    lookup: Result<Option<TenantUser>, String>,
    url_slugs: Vec<String>,
    page_slugs: Vec<String>,
    admin_username: &str,
    now: &str,
) -> (r: Result<DeletionPlan, String>)
    ensures
        target_id == 1 && !force ==> (r matches Err(e) && e@ == "Deleting legacy_admin system account requires force flag"@),
        !(target_id == 1 && !force) ==> match lookup {
            Err(e) => r == Err::<DeletionPlan, String>(e),
            Ok(None) => r matches Err(e) && e@ == "User not found"@,
            Ok(Some(u)) => r matches Ok(p) && p.removals@.map_values(|x: SlugRemoval| removal_view(x)) == removal_slugs(
                u,
                texts(url_slugs@),
                texts(page_slugs@),
            ) && p.history_old_owner == target_id && p.history_action@ == "deleted"@ && p.timestamp@ == now@
                && p.admin_username@ == admin_username@ && p.user_id == target_id && audit_is(p.audit, admin_username@,
                "USER_DELETION"@, "user"@, int_decimal(target_id as int), Some("Username: "@ + u.username@)),
        },
{
    match delete_user_guard(target_id, force) {
        Err(e) => return Err(e),
        Ok(()) => {},
    }
    let user = match lookup {
        Err(e) => return Err(e),
        Ok(None) => return Err(String::from_str("User not found")),
        Ok(Some(u)) => u,
    };
    let mut removals: Vec<SlugRemoval> = Vec::new();
    if user.tenant_id.is_some() {
        push_removals(&mut removals, url_slugs, false);
        push_removals(&mut removals, page_slugs, true);
        assert(removals@.map_values(|x: SlugRemoval| removal_view(x)) =~= removal_slugs(user, texts(url_slugs@), texts(page_slugs@)));
    } else {
        assert(removals@.map_values(|x: SlugRemoval| removal_view(x)) =~= Seq::<(Seq<char>, bool)>::empty());
    }
    let id_text = i64_decimal(target_id);
    let detail = join_text("Username: ", user.username.as_str());
    let audit = audit_plan(admin_username, "USER_DELETION", "user", id_text.as_str(), Some(detail));
    Ok(DeletionPlan {
        removals,
        history_old_owner: target_id,
        history_action: String::from_str("deleted"),
        timestamp: String::from_str(now),
        admin_username: String::from_str(admin_username),
        user_id: target_id,
        audit,
    })
}

} // verus!
