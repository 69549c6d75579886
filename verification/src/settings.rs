//! The settings pages of administrators and tenants: password changes, the
//! retention policy, API keys, QR export of all links, and the quota
//! reconciliation actions.

use vstd::prelude::*;
use vstd::string::*;
use crate::models::Url;
use crate::text::{int_decimal, i64_decimal, join_text, parse_i64, parse_i64_text, str_eq, trim_str, trimmed};
use crate::users::byte_len;

verus! {

pub struct UserSettingsQuery {
    pub success: Option<String>,
    pub error: Option<String>,
}

pub struct SettingsQuery {
    pub success: Option<String>,
    pub error: Option<String>,
}

pub struct ChangePasswordForm {
    pub current_password: String,
    pub new_password: String,
    pub csrf_token: String,
}

pub struct RetentionForm {
    pub retention: String,
    pub csrf_token: String,
}

pub struct BulkQrExportForm {
    pub format: String,
    pub csrf_token: String,
}

pub struct CreateApiKeyForm {
    pub key_name: String,
    pub csrf_token: String,
}

/// A tenant's password change needs the current password and a new one of
/// at least 8 bytes once trimmed.
pub open spec fn user_password_change_refusal(current: Seq<char>, new: Seq<char>) -> Option<Seq<char>> {
    if trimmed(current).len() == 0 || byte_len(trimmed(new)) < 8 {
        Some("Password must be at least 8 characters"@)
    } else {
        None
    }
}

pub fn user_password_change_precheck(current: &str, new: &str) -> (r: Result<(), &'static str>)
    ensures
        match user_password_change_refusal(current@, new@) {
            Some(m) => r is Err && r->Err_0@ == m,
            None => r is Ok,
        },
{
    if trim_str(current).is_empty() || trim_str(new).as_bytes().len() < 8 {
        Err("Password must be at least 8 characters")
    } else {
        Ok(())
    }
}

/// The retention policy shown on the settings page: the stored value, else
/// the configured number of days, else `unlimited`.
pub fn retention_display(stored: Option<String>, configured_days: Option<i64>) -> (r: String)
    ensures
        match stored {
            Some(s) => r == s,
            None => match configured_days {
                Some(d) => r@ == int_decimal(d as int),
                None => r@ == "unlimited"@,
            },
        },
{
    match stored {
        Some(s) => s,
        None => match configured_days {
            Some(d) => i64_decimal(d),
            None => String::from_str("unlimited"),
        },
    }
}

/// A link of the platform QR export: the registry's code and target, the
/// destination being the configured base URL (or nothing), a slash and the
/// code.
pub fn export_link(code: String, target_id: String, base_url: Option<&str>) -> (r: Url)
    ensures
        r.id == target_id,
        r.code == code,
        r.destination@ == (match base_url {
            Some(b) => b@,
            None => Seq::<char>::empty(),
        }) + "/"@ + code@,
        r.status@ == "active"@,
        r.created_at@ == Seq::<char>::empty() && r.updated_at@ == Seq::<char>::empty(),
        r.title is None && r.description is None && r.expires_at is None && r.password_hash is None,
        r.tags@.len() == 0 && r.max_access_count is None && r.access_count == 0 && !r.expired,
        r.last_latency_ms is None && r.last_status is None,
{
    let mut destination = match base_url {
        Some(b) => String::from_str(b),
        None => String::new(),
    };
    destination.append("/");
    destination.append(code.as_str());
    Url {
        id: target_id,
        code,
        destination,
        title: None,
        description: None,
        created_at: String::new(),
        updated_at: String::new(),
        status: String::from_str("active"),
        tags: Vec::new(),
        expires_at: None,
        password_hash: None,
        max_access_count: None,
        access_count: 0,
        expired: false,
        last_latency_ms: None,
        last_status: None,
    }
}

/// What the quota page's form asks for.
pub enum QuotaAction {
    /// Recount the usage of every account.
    ReconcileAll,
    /// Recount one account (an unreadable id counts as 0).
    Reconcile(i64),
    Invalid,
}

pub fn quota_action(action: &str, user_id: &str) -> (r: QuotaAction)
    ensures
        action@ == "reconcile_all"@ ==> r is ReconcileAll,
        action@ == "reconcile"@ ==> r == QuotaAction::Reconcile(
            match parse_i64_text(user_id@) {
                Some(n) => n,
                None => 0,
            },
        ),
        action@ != "reconcile_all"@ && action@ != "reconcile"@ ==> r is Invalid,
{
    proof {
        reveal_strlit("reconcile_all");
        reveal_strlit("reconcile");
        assert("reconcile_all"@.len() != "reconcile"@.len());
    }
    if str_eq(action, "reconcile_all") {
        QuotaAction::ReconcileAll
    } else if str_eq(action, "reconcile") {
        let id = match parse_i64(user_id) {
            Some(n) => n,
            None => 0,
        };
        QuotaAction::Reconcile(id)
    } else {
        QuotaAction::Invalid
    }
}

/// Where the quota page goes after one account was reconciled.
pub fn reconciled_location(user_id: i64) -> (r: String)
    ensures
        r@ == "/admin/users/"@ + int_decimal(user_id as int) + "?success=Quotas reconciled"@,
{
    let n = i64_decimal(user_id);
    let mut out = join_text("/admin/users/", n.as_str());
    out.append("?success=Quotas reconciled");
    out
}

} // verus!
