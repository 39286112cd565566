//! The reaction event path: from a reaction added or removed to at most one
//! role granted or revoked. Each step takes what the outside world answered
//! to the one before.

use vstd::prelude::*;
use crate::binding::{EmojiKey, EmojiKeyView, BindingView, BindingTable, resolve};

verus! {

#[derive(Debug, Clone, Copy, PartialEq, Eq, Structural)]
pub enum ReactionKind {
    Added,
    Removed,
}

/// What the event path can end with besides a role change.
#[derive(Debug)]
pub enum ReactionError {
    /// The reaction came with no tenant (a direct message): ignored.
    NoTenantId,
    /// A shared resource could not be had; the caller may try again.
    LockUnavailable,
    /// The store failed; the text says how.
    StoreError(String),
    /// No binding answers the reaction: the common case, ignored.
    NoBindingFound,
    /// The reacting member could not be found in the tenant.
    MemberResolutionFailed,
    /// The role could not be granted or revoked.
    RoleMutationFailed,
}

/// An inbound reaction. `emoji` is `None` for a kind of emoji that has
/// neither an id nor a literal text.
#[derive(Debug)]
pub struct ReactionEvent {
    pub kind: ReactionKind,
    pub tenant_id: Option<u64>,
    pub message_id: u64,
    pub user_id: u64,
    pub emoji: Option<EmojiKey>,
}

pub struct ReactionEventView {
    pub kind: ReactionKind,
    pub tenant_id: Option<u64>,
    pub message_id: u64,
    pub user_id: u64,
    pub emoji: Option<EmojiKeyView>,
}

impl View for ReactionEvent {
    type V = ReactionEventView;

    open spec fn view(&self) -> ReactionEventView {
        ReactionEventView {
            kind: self.kind,
            tenant_id: self.tenant_id,
            message_id: self.message_id,
            user_id: self.user_id,
            emoji: match self.emoji {
                Some(e) => Some(e@),
                None => None,
            },
        }
    }
}

/// The store query for an event: bindings of this tenant and message whose
/// emoji column (id or literal, as the key says) matches.
#[derive(Debug)]
pub struct BindingQuery {
    pub tenant_id: u64,
    pub message_id: u64,
    pub emoji: EmojiKey,
}

pub struct BindingQueryView {
    pub tenant_id: u64,
    pub message_id: u64,
    pub emoji: EmojiKeyView,
}

impl View for BindingQuery {
    type V = BindingQueryView;

    open spec fn view(&self) -> BindingQueryView {
        BindingQueryView { tenant_id: self.tenant_id, message_id: self.message_id, emoji: self.emoji@ }
    }
}

/// A grant (on `Added`) or a revoke (on `Removed`) of one role for one
/// member.
#[derive(Debug, Clone, Copy, PartialEq, Eq, Structural)]
pub struct RoleChange {
    pub kind: ReactionKind,
    pub tenant_id: u64,
    pub user_id: u64,
    pub role_id: u64,
}

pub enum QueryOutcome {
    Query(BindingQueryView),
    NoTenant,
    NoKey,
}

pub open spec fn query_outcome(e: ReactionEventView) -> QueryOutcome {
    match e.tenant_id {
        None => QueryOutcome::NoTenant,
        Some(t) => match e.emoji {
            None => QueryOutcome::NoKey,
            Some(k) => QueryOutcome::Query(BindingQueryView { tenant_id: t, message_id: e.message_id, emoji: k }),
        },
    }
}

/// Step one: the query that resolves the event's binding. An event with no
/// tenant ends in `NoTenantId`; one whose emoji has no key can match no
/// binding and ends in `NoBindingFound`.
pub fn binding_query(event: &ReactionEvent) -> (r: Result<BindingQuery, ReactionError>)
    ensures
        match query_outcome(event@) {
            QueryOutcome::Query(q) => r matches Ok(b) && b@ == q,
            QueryOutcome::NoTenant => r matches Err(ReactionError::NoTenantId),
            QueryOutcome::NoKey => r matches Err(ReactionError::NoBindingFound),
        },
{
    match event.tenant_id {
        None => Err(ReactionError::NoTenantId),
        Some(t) => match &event.emoji {
            None => Err(ReactionError::NoBindingFound),
            Some(k) => Ok(BindingQuery { tenant_id: t, message_id: event.message_id, emoji: k.duplicate() }),
        },
    }
}

/// Step two: the store's answer to the query. No row ends the path with
/// `NoBindingFound`; a failed store with `StoreError`.
pub fn bound_role(found: Result<Option<u64>, String>) -> (r: Result<u64, ReactionError>)
    ensures
        match found {
            Ok(Some(role)) => r == Ok::<u64, ReactionError>(role),
            Ok(None) => r matches Err(ReactionError::NoBindingFound),
            Err(detail) => r matches Err(ReactionError::StoreError(d)) && d@ == detail@,
        },
{
    match found {
        Ok(Some(role)) => Ok(role),
        Ok(None) => Err(ReactionError::NoBindingFound),
        Err(detail) => Err(ReactionError::StoreError(detail)),
    }
}

/// Step two against an in-memory table instead of the store.
pub fn lookup_role(table: &BindingTable, query: &BindingQuery) -> (r: Result<u64, ReactionError>)
    ensures
        match resolve(table@, query@.tenant_id, query@.message_id, query@.emoji) {
            Some(role) => r == Ok::<u64, ReactionError>(role),
            None => r matches Err(ReactionError::NoBindingFound),
        },
{
    bound_role(Ok(table.lookup(query.tenant_id, query.message_id, &query.emoji)))
}

pub open spec fn change_for(e: ReactionEventView, tenant: u64, role: u64) -> RoleChange {
    RoleChange { kind: e.kind, tenant_id: tenant, user_id: e.user_id, role_id: role }
}

/// Step three: once the member was looked up, the change to make. A member
/// that could not be found ends the path with `MemberResolutionFailed`.
pub fn role_change(event: &ReactionEvent, query: &BindingQuery, role: u64, member_found: bool) -> (r: Result<RoleChange, ReactionError>)
    ensures
        member_found ==> r == Ok::<RoleChange, ReactionError>(change_for(event@, query.tenant_id, role)),
        !member_found ==> r matches Err(ReactionError::MemberResolutionFailed),
{
    if member_found {
        Ok(RoleChange { kind: event.kind, tenant_id: query.tenant_id, user_id: event.user_id, role_id: role })
    } else {
        Err(ReactionError::MemberResolutionFailed)
    }
}

/// Step four: what the membership system answered to the change.
pub fn change_applied(change: RoleChange, applied: bool) -> (r: Result<RoleChange, ReactionError>)
    ensures
        applied ==> r == Ok::<RoleChange, ReactionError>(change),
        !applied ==> r matches Err(ReactionError::RoleMutationFailed),
{
    if applied {
        Ok(change)
    } else {
        Err(ReactionError::RoleMutationFailed)
    }
}

/// How loudly an outcome of the event path is reported.
#[derive(Debug, Clone, Copy, PartialEq, Eq, Structural)]
pub enum Severity {
    Silent,
    Warning,
    Error,
}

pub open spec fn severity_of(e: ReactionError) -> Severity {
    match e {
        ReactionError::NoTenantId => Severity::Silent,
        ReactionError::NoBindingFound => Severity::Silent,
        ReactionError::MemberResolutionFailed => Severity::Warning,
        ReactionError::RoleMutationFailed => Severity::Warning,
        ReactionError::LockUnavailable => Severity::Error,
        ReactionError::StoreError(_) => Severity::Error,
    }
}

/// Reactions with no binding or no tenant are not worth a log line; a
/// member or role failure is a warning; a lock or store failure an error.
pub fn severity(e: &ReactionError) -> (r: Severity)
    ensures
        r == severity_of(*e),
{
    match e {
        ReactionError::NoTenantId => Severity::Silent,
        ReactionError::NoBindingFound => Severity::Silent,
        ReactionError::MemberResolutionFailed => Severity::Warning,
        ReactionError::RoleMutationFailed => Severity::Warning,
        ReactionError::LockUnavailable => Severity::Error,
        ReactionError::StoreError(_) => Severity::Error,
    }
}

/// The change an event brings about against bindings `rows`, when the
/// member is found: `None` where the path ends before a change.
pub open spec fn planned_change(rows: Seq<BindingView>, e: ReactionEventView) -> Option<RoleChange> {
    match query_outcome(e) {
        QueryOutcome::Query(q) => match resolve(rows, q.tenant_id, q.message_id, q.emoji) {
            Some(role) => Some(change_for(e, q.tenant_id, role)),
            None => None,
        },
        _ => None,
    }
}

/// The member's roles after the membership system applied a change:
/// granting a role held, or revoking one not held, changes nothing.
pub open spec fn roles_after(roles: Set<u64>, change: Option<RoleChange>) -> Set<u64> {
    match change {
        Some(c) => match c.kind {
            ReactionKind::Added => roles.insert(c.role_id),
            ReactionKind::Removed => roles.remove(c.role_id),
        },
        None => roles,
    }
}

/// A reaction that no binding answers changes no role.
pub proof fn lemma_unmatched_reaction_changes_nothing(
    rows: Seq<BindingView>,
    e: ReactionEventView,
    roles: Set<u64>,
)
    requires
        forall|t: u64| e.tenant_id == Some(t) ==> match e.emoji {
            Some(k) => resolve(rows, t, e.message_id, k) == None::<u64>,
            None => true,
        },
    ensures
        planned_change(rows, e) == None::<RoleChange>,
        roles_after(roles, planned_change(rows, e)) == roles,
{
}

/// With `(tenant, message, emoji)` bound to `role`, adding that reaction
/// grants the member the role, and removing it then takes the role away.
pub proof fn lemma_grant_then_revoke(
    rows: Seq<BindingView>,
    tenant: u64,
    message: u64,
    emoji: EmojiKeyView,
    role: u64,
    user: u64,
    roles: Set<u64>,
)
    requires
        resolve(rows, tenant, message, emoji) == Some(role),
    ensures
        ({
            let added = ReactionEventView {
                kind: ReactionKind::Added,
                tenant_id: Some(tenant),
                message_id: message,
                user_id: user,
                emoji: Some(emoji),
            };
            let removed = ReactionEventView { kind: ReactionKind::Removed, ..added };
            let granted = roles_after(roles, planned_change(rows, added));
            &&& granted.contains(role)
            &&& !roles_after(granted, planned_change(rows, removed)).contains(role)
        }),
{
}

} // verus!
