use arzte_bot::binding::{BindingTable, EmojiKey, ReactionBinding};

fn binding(role: u64, tenant: u64, message: u64, emoji: EmojiKey) -> ReactionBinding {
    ReactionBinding { role_id: role, tenant_id: tenant, message_id: message, emoji }
}

#[test]
fn rebinding_replaces_old_binding() {
    let mut t = BindingTable::new();
    t.register(binding(50, 1, 100, EmojiKey::Custom(900)));
    t.register(binding(50, 1, 200, EmojiKey::Unicode("💙".to_string())));
    assert_eq!(t.len(), 1);
    assert_eq!(t.get(0).message_id, 200);
    assert_eq!(t.lookup(1, 100, &EmojiKey::Custom(900)), None);
    assert_eq!(t.lookup(1, 200, &EmojiKey::Unicode("💙".to_string())), Some(50));
}

#[test]
fn distinct_roles_are_kept() {
    let mut t = BindingTable::new();
    t.register(binding(1, 9, 10, EmojiKey::Custom(5)));
    t.register(binding(2, 9, 10, EmojiKey::Custom(6)));
    assert_eq!(t.len(), 2);
    assert_eq!(t.lookup(9, 10, &EmojiKey::Custom(5)), Some(1));
    assert_eq!(t.lookup(9, 10, &EmojiKey::Custom(6)), Some(2));
}

#[test]
fn lookup_needs_tenant_message_and_emoji() {
    let mut t = BindingTable::new();
    t.register(binding(3, 9, 10, EmojiKey::Custom(5)));
    assert_eq!(t.lookup(8, 10, &EmojiKey::Custom(5)), None);
    assert_eq!(t.lookup(9, 11, &EmojiKey::Custom(5)), None);
    assert_eq!(t.lookup(9, 10, &EmojiKey::Custom(6)), None);
    assert_eq!(t.lookup(9, 10, &EmojiKey::Unicode("5".to_string())), None);
}

#[test]
fn earliest_binding_answers_shared_reaction() {
    let mut t = BindingTable::new();
    t.register(binding(7, 1, 1, EmojiKey::Custom(1)));
    t.register(binding(8, 1, 1, EmojiKey::Custom(1)));
    assert_eq!(t.lookup(1, 1, &EmojiKey::Custom(1)), Some(7));
}

#[test]
fn emoji_keys_compare_by_kind_and_value() {
    assert!(EmojiKey::Custom(4).same_as(&EmojiKey::Custom(4)));
    assert!(!EmojiKey::Custom(4).same_as(&EmojiKey::Custom(5)));
    assert!(EmojiKey::Unicode("a".to_string()).same_as(&EmojiKey::Unicode("a".to_string())));
    assert!(!EmojiKey::Unicode("4".to_string()).same_as(&EmojiKey::Custom(4)));
}
