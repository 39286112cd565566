use arzte_bot::binding::{BindingTable, EmojiKey, ReactionBinding};
use arzte_bot::reaction::{
    binding_query, bound_role, change_applied, lookup_role, role_change, severity, ReactionError,
    ReactionEvent, ReactionKind, RoleChange, Severity,
};

fn event(kind: ReactionKind, tenant: Option<u64>, emoji: Option<EmojiKey>) -> ReactionEvent {
    ReactionEvent { kind, tenant_id: tenant, message_id: 100, user_id: 42, emoji }
}

fn table() -> BindingTable {
    let mut t = BindingTable::new();
    t.register(ReactionBinding { role_id: 77, tenant_id: 1, message_id: 100, emoji: EmojiKey::Custom(5) });
    t
}

// Applies a change as the membership system does.
fn apply(roles: &mut Vec<u64>, c: &RoleChange) {
    match c.kind {
        ReactionKind::Added => {
            if !roles.contains(&c.role_id) {
                roles.push(c.role_id)
            }
        }
        ReactionKind::Removed => roles.retain(|r| *r != c.role_id),
    }
}

fn run(t: &BindingTable, e: &ReactionEvent) -> Result<RoleChange, ReactionError> {
    let q = binding_query(e)?;
    let role = lookup_role(t, &q)?;
    let c = role_change(e, &q, role, true)?;
    change_applied(c, true)
}

#[test]
fn grant_then_revoke() {
    let t = table();
    let mut roles: Vec<u64> = vec![3];
    let add = event(ReactionKind::Added, Some(1), Some(EmojiKey::Custom(5)));
    let c = run(&t, &add).unwrap();
    assert_eq!(c, RoleChange { kind: ReactionKind::Added, tenant_id: 1, user_id: 42, role_id: 77 });
    apply(&mut roles, &c);
    assert!(roles.contains(&77));
    let remove = event(ReactionKind::Removed, Some(1), Some(EmojiKey::Custom(5)));
    let c = run(&t, &remove).unwrap();
    assert_eq!(c.kind, ReactionKind::Removed);
    apply(&mut roles, &c);
    assert_eq!(roles, vec![3]);
}

#[test]
fn unmatched_reaction_is_silent_no_op() {
    let t = table();
    let roles: Vec<u64> = vec![3];
    let e = event(ReactionKind::Added, Some(1), Some(EmojiKey::Unicode("👍".to_string())));
    let r = run(&t, &e);
    match r {
        Err(ref err) => {
            assert!(matches!(err, ReactionError::NoBindingFound));
            assert_eq!(severity(err), Severity::Silent);
        }
        Ok(_) => panic!("no binding should answer"),
    }
    assert_eq!(roles, vec![3]);
}

#[test]
fn reaction_without_tenant_is_ignored() {
    let e = event(ReactionKind::Added, None, Some(EmojiKey::Custom(5)));
    let r = binding_query(&e);
    assert!(matches!(r, Err(ReactionError::NoTenantId)));
    assert_eq!(severity(&ReactionError::NoTenantId), Severity::Silent);
}

#[test]
fn emoji_without_key_matches_nothing() {
    let e = event(ReactionKind::Removed, Some(1), None);
    assert!(matches!(binding_query(&e), Err(ReactionError::NoBindingFound)));
}

#[test]
fn query_carries_tenant_message_and_emoji() {
    let e = event(ReactionKind::Added, Some(8), Some(EmojiKey::Unicode("⭐".to_string())));
    let q = binding_query(&e).unwrap();
    assert_eq!(q.tenant_id, 8);
    assert_eq!(q.message_id, 100);
    assert!(q.emoji.same_as(&EmojiKey::Unicode("⭐".to_string())));
}

#[test]
fn store_answers_map_to_outcomes() {
    assert!(matches!(bound_role(Ok(Some(12))), Ok(12)));
    assert!(matches!(bound_role(Ok(None)), Err(ReactionError::NoBindingFound)));
    match bound_role(Err("db down".to_string())) {
        Err(ReactionError::StoreError(d)) => assert_eq!(d, "db down"),
        other => panic!("unexpected {:?}", other),
    }
}

#[test]
fn member_not_found_is_reported() {
    let e = event(ReactionKind::Added, Some(1), Some(EmojiKey::Custom(5)));
    let q = binding_query(&e).unwrap();
    let r = role_change(&e, &q, 77, false);
    assert!(matches!(r, Err(ReactionError::MemberResolutionFailed)));
    assert_eq!(severity(&ReactionError::MemberResolutionFailed), Severity::Warning);
}

#[test]
fn failed_mutation_is_reported() {
    let c = RoleChange { kind: ReactionKind::Removed, tenant_id: 1, user_id: 2, role_id: 3 };
    assert!(matches!(change_applied(c, false), Err(ReactionError::RoleMutationFailed)));
    assert_eq!(severity(&ReactionError::RoleMutationFailed), Severity::Warning);
}

#[test]
fn lock_and_store_failures_are_errors() {
    assert_eq!(severity(&ReactionError::LockUnavailable), Severity::Error);
    assert_eq!(severity(&ReactionError::StoreError("x".to_string())), Severity::Error);
}
