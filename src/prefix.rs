//! The tenant prefix cache: a read-through, write-through shadow of the
//! prefix column of the tenant table.
//!
//! The store itself is outside; each operation here is a step that takes
//! what the store answered. The cache is meant to sit behind one lock held
//! across a whole read or write, store call included, so that every read
//! and every write is one step of the model below.

use vstd::prelude::*;
use std::collections::HashMap;

verus! {

broadcast use vstd::std_specs::hash::group_hash_axioms;

/// The prefix of a tenant that never set one.
pub open spec fn default_prefix() -> Seq<char> {
    seq!['a', '.']
}

pub fn default_prefix_string() -> (r: String)
    ensures
        r@ == default_prefix(),
{
    let r = String::from_str("a.");
    proof {
        reveal_strlit("a.");
    }
    assert(r@ =~= default_prefix());
    r
}

#[derive(Debug, Clone, Copy, PartialEq, Eq, Structural)]
pub enum PrefixSource {
    Cache,
    Store,
    Default,
}

#[derive(Debug)]
pub struct PrefixAnswer {
    pub prefix: String,
    pub source: PrefixSource,
}

#[derive(Debug)]
pub enum PrefixError {
    /// The cache could not be locked; the caller may try again.
    LockUnavailable,
    /// The store failed; the text says how. No default is assumed.
    StoreError(String),
}

/// The row that a prefix write upserts, keyed by `tenant_id`.
#[derive(Debug)]
pub struct TenantConfig {
    pub tenant_id: u64,
    pub display_name: String,
    pub prefix: String,
}

/// A stored row, as the model of the store holds it.
pub struct TenantRow {
    pub display_name: Seq<char>,
    pub prefix: Seq<char>,
}

/// What the next step of a prefix command is.
#[derive(Debug)]
pub enum PrefixStep {
    /// Reply with this prefix; nothing else to do.
    Answer(PrefixAnswer),
    /// Read the tenant's row, then call `complete_lookup`.
    ReadStore(u64),
    /// Upsert this row, then call `complete_write`.
    WriteStore(TenantConfig),
}

/// What the store answers for a tenant: its prefix, if it has a row.
pub open spec fn store_answer(store: Map<u64, TenantRow>, t: u64) -> Option<Seq<char>> {
    if store.contains_key(t) {
        Some(store[t].prefix)
    } else {
        None
    }
}

/// The prefix a read returns: the cached one, else the stored one, else
/// the default.
pub open spec fn prefix_read(cache: Map<u64, Seq<char>>, store: Map<u64, TenantRow>, t: u64) -> Seq<char> {
    if cache.contains_key(t) {
        cache[t]
    } else {
        match store_answer(store, t) {
            Some(p) => p,
            None => default_prefix(),
        }
    }
}

/// The cache after a read whose store lookup answered `answer`: a stored
/// prefix is cached, an absent row is not, and an entry is never replaced.
pub open spec fn cache_after_lookup(cache: Map<u64, Seq<char>>, t: u64, answer: Option<Seq<char>>) -> Map<u64, Seq<char>> {
    if cache.contains_key(t) {
        cache
    } else {
        match answer {
            Some(p) => cache.insert(t, p),
            None => cache,
        }
    }
}

/// The cache after a write: changed only once the store committed.
pub open spec fn cache_after_write(cache: Map<u64, Seq<char>>, t: u64, p: Seq<char>, committed: bool) -> Map<u64, Seq<char>> {
    if committed {
        cache.insert(t, p)
    } else {
        cache
    }
}

/// The store after a write: the row is inserted or replaced on commit.
pub open spec fn store_after_write(
    store: Map<u64, TenantRow>,
    t: u64,
    name: Seq<char>,
    p: Seq<char>,
    committed: bool,
) -> Map<u64, TenantRow> {
    if committed {
        store.insert(t, TenantRow { display_name: name, prefix: p })
    } else {
        store
    }
}

/// Every cached prefix is the one the store holds.
pub open spec fn agree(cache: Map<u64, Seq<char>>, store: Map<u64, TenantRow>) -> bool {
    forall|t: u64| #[trigger] cache.contains_key(t) ==> store.contains_key(t) && store[t].prefix == cache[t]
}

/// The tenant prefix cache.
pub struct PrefixHashMapContainer {
    prefixes: HashMap<u64, String>,
}

impl View for PrefixHashMapContainer {
    type V = Map<u64, Seq<char>>;

    closed spec fn view(&self) -> Map<u64, Seq<char>> {
        self.prefixes@.map_values(|s: String| s@)
    }
}

impl PrefixHashMapContainer {
    pub fn new() -> (r: PrefixHashMapContainer)
        ensures
            r@ == Map::<u64, Seq<char>>::empty(),
    {
        let r = PrefixHashMapContainer { prefixes: HashMap::new() };
        assert(r@ =~= Map::<u64, Seq<char>>::empty());
        r
    }

    /// The cached prefix of `tenant`, if any.
    pub fn cached(&self, tenant: u64) -> (r: Option<String>)
        ensures
            match r {
                Some(p) => self@.contains_key(tenant) && p@ == self@[tenant],
                None => !self@.contains_key(tenant),
            },
    {
        match self.prefixes.get(&tenant) {
            Some(p) => Some(p.clone()),
            None => None,
        }
    }

    /// The first step of a prefix command: a write goes to the store first;
    /// a read is answered from the cache, or goes to the store on a miss.
    pub fn begin_command(&self, tenant: u64, display_name: String, new_prefix: Option<String>) -> (r: PrefixStep)
        ensures
            match new_prefix {
                Some(p) => r matches PrefixStep::WriteStore(row) && row.tenant_id == tenant
                    && row.display_name@ == display_name@ && row.prefix@ == p@,
                None => if self@.contains_key(tenant) {
                    r matches PrefixStep::Answer(a) && a.prefix@ == self@[tenant] && a.source
                        == PrefixSource::Cache
                } else {
                    r == PrefixStep::ReadStore(tenant)
                },
            },
    {
        match new_prefix {
            Some(p) => PrefixStep::WriteStore(TenantConfig { tenant_id: tenant, display_name, prefix: p }),
            None => match self.cached(tenant) {
                Some(p) => PrefixStep::Answer(PrefixAnswer { prefix: p, source: PrefixSource::Cache }),
                None => PrefixStep::ReadStore(tenant),
            },
        }
    }

    /// Completes a read with the store's answer for `tenant`: its prefix,
    /// `None` for no row, or the store's failure. A failure leaves the cache
    /// as it was and is reported, never replaced by the default.
    pub fn complete_lookup(&mut self, tenant: u64, stored: Result<Option<String>, String>) -> (r: Result<PrefixAnswer, PrefixError>)
        ensures
            old(self)@.contains_key(tenant) ==> final(self)@ == old(self)@ && (r matches Ok(a)
                && a.prefix@ == old(self)@[tenant] && a.source == PrefixSource::Cache),
            !old(self)@.contains_key(tenant) ==> match stored {
                Ok(Some(p)) => final(self)@ == cache_after_lookup(old(self)@, tenant, Some(p@))
                    && (r matches Ok(a) && a.prefix@ == p@ && a.source == PrefixSource::Store),
                Ok(None) => final(self)@ == old(self)@ && (r matches Ok(a) && a.prefix@
                    == default_prefix() && a.source == PrefixSource::Default),
                Err(d) => final(self)@ == old(self)@ && (r matches Err(PrefixError::StoreError(e))
                    && e@ == d@),
            },
    {
        if let Some(p) = self.cached(tenant) {
            return Ok(PrefixAnswer { prefix: p, source: PrefixSource::Cache });
        }
        match stored {
            Ok(Some(p)) => {
                let ghost before = self@;
                let ghost pv = p@;
                self.prefixes.insert(tenant, p.clone());
                assert(self@ =~= before.insert(tenant, pv));
                Ok(PrefixAnswer { prefix: p, source: PrefixSource::Store })
            },
            Ok(None) => Ok(PrefixAnswer { prefix: default_prefix_string(), source: PrefixSource::Default }),
            Err(d) => Err(PrefixError::StoreError(d)),
        }
    }

    /// Completes a write of `prefix` for `tenant` with the store's answer:
    /// only a committed upsert reaches the cache; a failed one leaves it as
    /// it was.
    pub fn complete_write(&mut self, tenant: u64, prefix: String, written: Result<(), String>) -> (r: Result<(), PrefixError>)
        ensures
            match written {
                Ok(()) => final(self)@ == cache_after_write(old(self)@, tenant, prefix@, true) && r is Ok,
                Err(d) => final(self)@ == old(self)@ && (r matches Err(PrefixError::StoreError(e))
                    && e@ == d@),
            },
    {
        match written {
            Ok(()) => {
                let ghost before = self@;
                let ghost pv = prefix@;
                self.prefixes.insert(tenant, prefix);
                assert(self@ =~= before.insert(tenant, pv));
                Ok(())
            },
            Err(d) => Err(PrefixError::StoreError(d)),
        }
    }
}

/// A new, empty cache agrees with any store.
pub proof fn lemma_empty_cache_agrees(store: Map<u64, TenantRow>)
    ensures
        agree(Map::<u64, Seq<char>>::empty(), store),
{
}

/// A committed write of `p` is what the next read of the tenant returns,
/// and it is served from the cache.
pub proof fn lemma_read_after_write(
    cache: Map<u64, Seq<char>>,
    store: Map<u64, TenantRow>,
    t: u64,
    name: Seq<char>,
    p: Seq<char>,
)
    ensures
        cache_after_write(cache, t, p, true).contains_key(t),
        prefix_read(cache_after_write(cache, t, p, true), store_after_write(store, t, name, p, true), t) == p,
{
}

/// A tenant with no row reads as the default prefix, and the read leaves
/// the cache as it was (nothing is cached for it).
pub proof fn lemma_default_on_absence(cache: Map<u64, Seq<char>>, store: Map<u64, TenantRow>, t: u64)
    requires
        agree(cache, store),
        !store.contains_key(t),
    ensures
        !cache.contains_key(t),
        prefix_read(cache, store, t) == default_prefix(),
        cache_after_lookup(cache, t, store_answer(store, t)) == cache,
{
}

/// Reads keep the cache in agreement with the store.
pub proof fn lemma_lookup_keeps_agreement(cache: Map<u64, Seq<char>>, store: Map<u64, TenantRow>, t: u64)
    requires
        agree(cache, store),
    ensures
        agree(cache_after_lookup(cache, t, store_answer(store, t)), store),
        prefix_read(cache, store, t) == match store_answer(store, t) {
            Some(p) => p,
            None => default_prefix(),
        },
{
}

/// Writes keep the cache in agreement with the store, committed or not;
/// a committed write leaves both holding the new prefix.
pub proof fn lemma_write_keeps_agreement(
    cache: Map<u64, Seq<char>>,
    store: Map<u64, TenantRow>,
    t: u64,
    name: Seq<char>,
    p: Seq<char>,
    committed: bool,
)
    requires
        agree(cache, store),
    ensures
        agree(cache_after_write(cache, t, p, committed), store_after_write(store, t, name, p, committed)),
        committed ==> cache_after_write(cache, t, p, committed)[t] == p
            && store_after_write(store, t, name, p, committed)[t].prefix == p,
        !committed ==> cache_after_write(cache, t, p, committed) == cache
            && store_after_write(store, t, name, p, committed) == store,
{
    let c2 = cache_after_write(cache, t, p, committed);
    let s2 = store_after_write(store, t, name, p, committed);
    assert forall|k: u64| #[trigger] c2.contains_key(k) implies s2.contains_key(k) && s2[k].prefix == c2[k] by {
        if k != t {
            assert(cache.contains_key(k));
        }
    }
}

/// Two writes of one tenant, the second completing last: cache and store
/// agree on the tenant, holding the last committed prefix (the second if it
/// committed, else the first if it did), never one from each write.
pub proof fn lemma_last_write_wins(
    cache: Map<u64, Seq<char>>,
    store: Map<u64, TenantRow>,
    t: u64,
    name1: Seq<char>,
    prefix1: Seq<char>,
    committed1: bool,
    name2: Seq<char>,
    prefix2: Seq<char>,
    committed2: bool,
)
    requires
        agree(cache, store),
    ensures
        ({
            let c1 = cache_after_write(cache, t, prefix1, committed1);
            let s1 = store_after_write(store, t, name1, prefix1, committed1);
            let c2 = cache_after_write(c1, t, prefix2, committed2);
            let s2 = store_after_write(s1, t, name2, prefix2, committed2);
            &&& agree(c2, s2)
            &&& committed2 ==> c2[t] == prefix2 && s2[t].prefix == prefix2
            &&& !committed2 && committed1 ==> c2[t] == prefix1 && s2[t].prefix == prefix1
            &&& !committed2 && !committed1 ==> c2 == cache && s2 == store
        }),
{
    lemma_write_keeps_agreement(cache, store, t, name1, prefix1, committed1);
    let c1 = cache_after_write(cache, t, prefix1, committed1);
    let s1 = store_after_write(store, t, name1, prefix1, committed1);
    lemma_write_keeps_agreement(c1, s1, t, name2, prefix2, committed2);
}

} // verus!
