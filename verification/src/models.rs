//! The records the handlers read from storage, as plain values.

use vstd::prelude::*;
use vstd::string::*;

verus! {

/// A tenant account (a row of the users registry).
pub struct TenantUser {
    pub id: i64,
    pub username: String,
    pub password_hash: String,
    /// `active`, `disabled`, `suspended`, `pending` or `deleted`.
    pub status: String,
    /// `admin`, `standard`, `organization`, `service` or `system`.
    pub account_type: String,
    pub created_at: String,
    pub metadata: Option<String>,
    /// The tenant identifier, when one is assigned.
    pub tenant_id: Option<String>,
}

/// The administrator identity of an admin UI session.
pub struct User {
    pub id: String,
    pub username: String,
    pub password_hash: String,
    pub created_at: String,
}

/// Who an API request acts as.
pub enum ApiActor {
    Admin(User),
    User(TenantUser),
}

/// Quota limits and counters of one user.
pub struct UserQuotas {
    pub user_id: i64,
    pub max_urls: i64,
    pub max_landings: i64,
    pub max_api_tokens: i64,
    pub max_storage_mb: i64,
    pub current_urls: i64,
    pub current_landings: i64,
    pub current_api_tokens: i64,
    pub current_storage_mb: i64,
}

/// What a public slug points to.
#[derive(PartialEq, Eq, Structural, Clone, Copy)]
pub enum SlugTargetType {
    Url,
    LandingPage,
}

/// A global slug registry entry.
pub struct SlugInfo {
    pub owner_tenant_id: String,
    /// `active`, `flagged`, `disabled`, ...
    pub status: String,
    pub target_type: SlugTargetType,
}

/// A short URL as its owner's content database holds it.
pub struct Url {
    pub id: String,
    pub code: String,
    pub destination: String,
    pub title: Option<String>,
    pub description: Option<String>,
    pub created_at: String,
    pub updated_at: String,
    pub status: String,
    pub tags: Vec<String>,
    pub expires_at: Option<String>,
    pub password_hash: Option<String>,
    pub max_access_count: Option<i64>,
    pub access_count: i64,
    pub expired: bool,
    pub last_latency_ms: Option<i64>,
    pub last_status: Option<i64>,
}

/// The link has used up its access limit.
pub open spec fn access_exhausted(max_access_count: Option<i64>, access_count: i64) -> bool {
    match max_access_count {
        Some(m) => access_count >= m,
        None => false,
    }
}

impl Url {
    pub fn is_access_exhausted(&self) -> (r: bool)
        ensures
            r == access_exhausted(self.max_access_count, self.access_count),
    {
        match self.max_access_count {
            Some(m) => self.access_count >= m,
            None => false,
        }
    }

    pub fn is_password_protected(&self) -> (r: bool)
        ensures
            r == self.password_hash.is_some(),
    {
        self.password_hash.is_some()
    }
}

/// The value behind an optional reference.
pub open spec fn deref_opt<T>(o: Option<&T>) -> Option<T> {
    match o {
        Some(x) => Some(*x),
        None => None,
    }
}

/// The text of an optional string slice.
pub open spec fn opt_text(o: Option<&str>) -> Option<Seq<char>> {
    match o {
        Some(x) => Some(x@),
        None => None,
    }
}

/// The text of an optional owned string.
pub open spec fn opt_string(o: Option<String>) -> Option<Seq<char>> {
    match o {
        Some(x) => Some(x@),
        None => None,
    }
}

/// An HTTP reply: status, optional `Location`, body text.
pub struct Reply {
    pub status: u16,
    pub location: Option<String>,
    pub body: String,
}

/// An audit event to write: who did what to which object, with optional
/// metadata.
pub struct AuditPlan {
    pub actor: String,
    pub action: String,
    pub object_type: String,
    pub object_id: String,
    pub metadata: Option<String>,
}

/// The audit event has these fields.
pub open spec fn audit_is(
    a: AuditPlan,
    actor: Seq<char>,
    action: Seq<char>,
    object_type: Seq<char>,
    object_id: Seq<char>,
    metadata: Option<Seq<char>>,
) -> bool {
    &&& a.actor@ == actor
    &&& a.action@ == action
    &&& a.object_type@ == object_type
    &&& a.object_id@ == object_id
    &&& opt_string(a.metadata) == metadata
}

/// Builds an audit event.
pub fn audit_plan(actor: &str, action: &str, object_type: &str, object_id: &str, metadata: Option<String>) -> (r: AuditPlan)
    ensures
        audit_is(r, actor@, action@, object_type@, object_id@, opt_string(metadata)),
{
    AuditPlan {
        actor: String::from_str(actor),
        action: String::from_str(action),
        object_type: String::from_str(object_type),
        object_id: String::from_str(object_id),
        metadata,
    }
}

} // verus!
