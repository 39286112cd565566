// Locking policy under test: one lock over the whole cache, held across each
// read or write including its store call, so each call below is one atomic
// step; writes of one tenant never interleave.

use arzte_bot::prefix::{
    default_prefix_string, PrefixError, PrefixHashMapContainer, PrefixSource, PrefixStep,
};

#[test]
fn read_after_write_returns_written_prefix() {
    let mut cache = PrefixHashMapContainer::new();
    assert!(cache.complete_write(7, "!".to_string(), Ok(())).is_ok());
    match cache.begin_command(7, "guild".to_string(), None) {
        PrefixStep::Answer(a) => {
            assert_eq!(a.prefix, "!");
            assert_eq!(a.source, PrefixSource::Cache);
        }
        other => panic!("expected a cached answer, got {:?}", other),
    }
}

#[test]
fn absent_tenant_reads_default_and_caches_nothing() {
    let mut cache = PrefixHashMapContainer::new();
    match cache.begin_command(3, "guild".to_string(), None) {
        PrefixStep::ReadStore(t) => assert_eq!(t, 3),
        other => panic!("expected a store read, got {:?}", other),
    }
    let a = cache.complete_lookup(3, Ok(None)).unwrap();
    assert_eq!(a.prefix, "a.");
    assert_eq!(a.source, PrefixSource::Default);
    assert!(cache.cached(3).is_none());
}

#[test]
fn default_prefix_is_a_dot() {
    assert_eq!(default_prefix_string(), "a.");
}

#[test]
fn store_hit_populates_cache() {
    let mut cache = PrefixHashMapContainer::new();
    let a = cache.complete_lookup(5, Ok(Some("?".to_string()))).unwrap();
    assert_eq!(a.prefix, "?");
    assert_eq!(a.source, PrefixSource::Store);
    assert_eq!(cache.cached(5), Some("?".to_string()));
}

#[test]
fn store_failure_on_read_is_reported_not_defaulted() {
    let mut cache = PrefixHashMapContainer::new();
    match cache.complete_lookup(5, Err("connection refused".to_string())) {
        Err(PrefixError::StoreError(d)) => assert_eq!(d, "connection refused"),
        other => panic!("expected a store error, got {:?}", other),
    }
    assert!(cache.cached(5).is_none());
}

#[test]
fn stale_store_answer_never_replaces_entry() {
    let mut cache = PrefixHashMapContainer::new();
    cache.complete_write(9, "new".to_string(), Ok(())).unwrap();
    let a = cache.complete_lookup(9, Ok(Some("old".to_string()))).unwrap();
    assert_eq!(a.prefix, "new");
    assert_eq!(a.source, PrefixSource::Cache);
    assert_eq!(cache.cached(9), Some("new".to_string()));
}

#[test]
fn failed_write_leaves_cache_unchanged() {
    let mut cache = PrefixHashMapContainer::new();
    cache.complete_write(1, "x!".to_string(), Ok(())).unwrap();
    match cache.complete_write(1, "y!".to_string(), Err("timeout".to_string())) {
        Err(PrefixError::StoreError(d)) => assert_eq!(d, "timeout"),
        other => panic!("expected a store error, got {:?}", other),
    }
    assert_eq!(cache.cached(1), Some("x!".to_string()));
    assert!(cache.complete_write(2, "z".to_string(), Err("down".to_string())).is_err());
    assert!(cache.cached(2).is_none());
}

#[test]
fn last_committed_write_wins() {
    let mut cache = PrefixHashMapContainer::new();
    cache.complete_write(4, "first".to_string(), Ok(())).unwrap();
    cache.complete_write(4, "second".to_string(), Ok(())).unwrap();
    assert_eq!(cache.cached(4), Some("second".to_string()));
    let _ = cache.complete_write(4, "third".to_string(), Err("lost".to_string()));
    assert_eq!(cache.cached(4), Some("second".to_string()));
}

#[test]
fn write_command_goes_to_store_first() {
    let cache = PrefixHashMapContainer::new();
    match cache.begin_command(11, "My Guild".to_string(), Some(">>".to_string())) {
        PrefixStep::WriteStore(row) => {
            assert_eq!(row.tenant_id, 11);
            assert_eq!(row.display_name, "My Guild");
            assert_eq!(row.prefix, ">>");
        }
        other => panic!("expected a store write, got {:?}", other),
    }
    assert!(cache.cached(11).is_none());
}

#[test]
fn tenants_are_kept_apart() {
    let mut cache = PrefixHashMapContainer::new();
    cache.complete_write(1, "one".to_string(), Ok(())).unwrap();
    cache.complete_write(2, "two".to_string(), Ok(())).unwrap();
    assert_eq!(cache.cached(1), Some("one".to_string()));
    assert_eq!(cache.cached(2), Some("two".to_string()));
    assert!(cache.cached(3).is_none());
}

#[test]
fn lock_error_variant_exists_for_callers() {
    let e = PrefixError::LockUnavailable;
    assert!(matches!(e, PrefixError::LockUnavailable));
}
