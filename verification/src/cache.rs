//! The decision cache: request fingerprint to policy outcome.
//!
//! When caching is disabled, lookups return nothing and insertions do
//! nothing. The cache is replaced wholesale when new firewall defaults
//! arrive, so a decision made under a retired configuration is never
//! served.
//!
//! Retention is deliberate: no entry expires or is evicted, and the
//! cache grows with the distinct fingerprints seen until the next
//! defaults change clears it. Correctness — never serving a decision
//! made under a retired policy — is chosen over boundedness; adding a
//! capacity bound with an eviction policy would be a hardening change
//! on top of this contract, not a change to it.
use vstd::prelude::*;

use crate::cache_key::CacheKeyView;
use crate::policy::{FirewallDefaults, FirewallPolicy};

pub use crate::cache_key::CacheKey;

verus! {

/// True when no two entries of `s` share a fingerprint.
pub open spec fn entry_keys_distinct(s: Seq<(CacheKey, FirewallPolicy)>) -> bool {
    forall|i: int, j: int|
        0 <= i < j < s.len() ==> (#[trigger] s[i]).0@ != (#[trigger] s[j]).0@
}

/// The mathematical map holding exactly the entries of `s`; on duplicate
/// fingerprints the later entry wins.
pub open spec fn entry_map_of(s: Seq<(CacheKey, FirewallPolicy)>) -> Map<
    CacheKeyView,
    FirewallPolicy,
>
    decreases s.len(),
{
    if s.len() == 0 {
        Map::empty()
    } else {
        entry_map_of(s.drop_last()).insert(s.last().0@, s.last().1)
    }
}

/// A fingerprint is in `entry_map_of(s)` exactly when some entry holds it.
proof fn lemma_entry_map_contains(s: Seq<(CacheKey, FirewallPolicy)>)
    ensures
        forall|k: CacheKeyView|
            entry_map_of(s).contains_key(k) <==> exists|i: int|
                0 <= i < s.len() && (#[trigger] s[i]).0@ == k,
    decreases s.len(),
{
    if s.len() > 0 {
        lemma_entry_map_contains(s.drop_last());
        assert forall|k: CacheKeyView| entry_map_of(s).contains_key(k) implies exists|i: int|
            0 <= i < s.len() && (#[trigger] s[i]).0@ == k by {
            if k == s.last().0@ {
                assert(s[s.len() - 1].0@ == k);
            } else {
                assert(entry_map_of(s) == entry_map_of(s.drop_last()).insert(
                    s.last().0@,
                    s.last().1,
                ));
                assert(entry_map_of(s.drop_last()).contains_key(k));
                let i = choose|i: int|
                    0 <= i < s.drop_last().len() && (#[trigger] s.drop_last()[i]).0@ == k;
                assert(s.drop_last()[i] == s[i]);
                assert(s[i].0@ == k);
            }
        }
        assert forall|k: CacheKeyView|
            (exists|i: int| 0 <= i < s.len() && (#[trigger] s[i]).0@ == k) implies entry_map_of(
            s,
        ).contains_key(k) by {
            let i = choose|i: int| 0 <= i < s.len() && (#[trigger] s[i]).0@ == k;
            assert(entry_map_of(s) == entry_map_of(s.drop_last()).insert(s.last().0@, s.last().1));
            if i < s.len() - 1 {
                assert(s.drop_last()[i] == s[i]);
                assert(s.drop_last()[i].0@ == k);
                assert(entry_map_of(s.drop_last()).contains_key(k));
            } else {
                assert(s.last().0@ == k);
            }
        }
    }
}

/// Under distinct fingerprints, the entry at `i` gives the decision for
/// its fingerprint.
proof fn lemma_entry_map_index(s: Seq<(CacheKey, FirewallPolicy)>, i: int)
    requires
        entry_keys_distinct(s),
        0 <= i < s.len(),
    ensures
        entry_map_of(s).contains_key(s[i].0@),
        entry_map_of(s)[s[i].0@] == s[i].1,
    decreases s.len(),
{
    if i < s.len() - 1 {
        assert(s.drop_last()[i] == s[i]);
        lemma_entry_map_index(s.drop_last(), i);
        assert(s[i].0@ != s.last().0@);
    }
}

/// Replacing the entry at `i` by one with an equal fingerprint updates the
/// map at that fingerprint and nothing else.
proof fn lemma_entry_map_update(
    s: Seq<(CacheKey, FirewallPolicy)>,
    i: int,
    p: (CacheKey, FirewallPolicy),
)
    requires
        entry_keys_distinct(s),
        0 <= i < s.len(),
        p.0@ == s[i].0@,
    ensures
        entry_map_of(s.update(i, p)) == entry_map_of(s).insert(p.0@, p.1),
    decreases s.len(),
{
    let t = s.update(i, p);
    if i == s.len() - 1 {
        assert(t.drop_last() =~= s.drop_last());
        assert(entry_map_of(t) =~= entry_map_of(s).insert(p.0@, p.1));
    } else {
        assert(t.drop_last() =~= s.drop_last().update(i, p));
        assert(s.drop_last()[i] == s[i]);
        lemma_entry_map_update(s.drop_last(), i, p);
        assert(s[i].0@ != s.last().0@);
        assert(t.last() == s.last());
        assert(entry_map_of(t) =~= entry_map_of(s).insert(p.0@, p.1));
    }
}

/// The decision cache. Its view is the map of cached decisions.
pub struct Cache {
    active: bool,
    entries: Vec<(CacheKey, FirewallPolicy)>,
}

impl View for Cache {
    type V = Map<CacheKeyView, FirewallPolicy>;

    closed spec fn view(&self) -> Map<CacheKeyView, FirewallPolicy> {
        entry_map_of(self.entries@)
    }
}

impl Cache {
    #[verifier::type_invariant]
    spec fn wf(&self) -> bool {
        entry_keys_distinct(self.entries@)
    }

    /// Whether lookups and insertions are enabled.
    pub closed spec fn is_active(&self) -> bool {
        self.active
    }

    /// A fresh, empty cache honoring the `cache` flag of the given
    /// defaults.
    pub fn new(defaults: FirewallDefaults) -> (c: Cache)
        ensures
            c.is_active() == defaults.cache,
            c@ == Map::<CacheKeyView, FirewallPolicy>::empty(),
    {
        Cache { active: defaults.cache, entries: Vec::new() }
    }

    /// The cached decision for this fingerprint, or nothing when caching
    /// is disabled or no decision was cached.
    pub fn get(&self, key: &CacheKey) -> (r: Option<FirewallPolicy>)
        ensures
            r == if self.is_active() && self@.contains_key(key@) {
                Some(self@[key@])
            } else {
                None::<FirewallPolicy>
            },
    {
        proof {
            use_type_invariant(&*self);
            lemma_entry_map_contains(self.entries@);
        }
        if !self.active {
            return None;
        }
        let n = self.entries.len();
        let mut idx: usize = 0;
        while idx < n
            invariant
                n == self.entries@.len(),
                idx <= n,
                self.active,
                entry_keys_distinct(self.entries@),
                forall|j: int| 0 <= j < idx ==> (#[trigger] self.entries@[j]).0@ != key@,
            decreases n - idx,
        {
            if self.entries[idx].0 == *key {
                proof {
                    lemma_entry_map_index(self.entries@, idx as int);
                }
                return Some(self.entries[idx].1);
            }
            idx += 1;
        }
        None
    }

    /// Records a decision for this fingerprint, replacing any earlier
    /// one; does nothing when caching is disabled.
    pub fn insert(&mut self, key: CacheKey, policy: FirewallPolicy)
        ensures
            final(self).is_active() == old(self).is_active(),
            final(self)@ == if old(self).is_active() {
                old(self)@.insert(key@, policy)
            } else {
                old(self)@
            },
    {
        proof {
            use_type_invariant(&*self);
        }
        if !self.active {
            return;
        }
        let mut entries: Vec<(CacheKey, FirewallPolicy)> = Vec::new();
        core::mem::swap(&mut entries, &mut self.entries);
        let n = entries.len();
        let mut idx: usize = 0;
        while idx < n
            invariant
                n == entries@.len(),
                idx <= n,
                self.active == old(self).active,
                self.active,
                entry_keys_distinct(entries@),
                entries@ == old(self).entries@,
                forall|j: int| 0 <= j < idx ==> (#[trigger] entries@[j]).0@ != key@,
            decreases n - idx,
        {
            if entries[idx].0 == key {
                proof {
                    lemma_entry_map_update(entries@, idx as int, (key, policy));
                }
                entries[idx] = (key, policy);
                self.entries = entries;
                return;
            }
            idx += 1;
        }
        proof {
            lemma_entry_map_contains(entries@);
            assert(entries@.push((key, policy)).drop_last() =~= entries@);
        }
        entries.push((key, policy));
        self.entries = entries;
    }
}

/// Recording a sequence of decisions in order, later decisions for a
/// fingerprint replacing earlier ones.
pub open spec fn apply_decisions(
    m: Map<CacheKeyView, FirewallPolicy>,
    es: Seq<(CacheKeyView, FirewallPolicy)>,
) -> Map<CacheKeyView, FirewallPolicy>
    decreases es.len(),
{
    if es.len() == 0 {
        m
    } else {
        apply_decisions(m, es.drop_last()).insert(es.last().0, es.last().1)
    }
}

/// The decision most recently recorded for a fingerprint in a sequence
/// of recordings, if any.
pub open spec fn last_decision_for(
    es: Seq<(CacheKeyView, FirewallPolicy)>,
    k: CacheKeyView,
) -> Option<FirewallPolicy>
    decreases es.len(),
{
    if es.len() == 0 {
        None
    } else if es.last().0 == k {
        Some(es.last().1)
    } else {
        last_decision_for(es.drop_last(), k)
    }
}

/// After any sequence of recordings, a fingerprint maps to the decision
/// most recently recorded for it, or to what it mapped to before if none
/// was.
pub proof fn lemma_apply_decisions_last(
    m: Map<CacheKeyView, FirewallPolicy>,
    es: Seq<(CacheKeyView, FirewallPolicy)>,
    k: CacheKeyView,
)
    ensures
        match last_decision_for(es, k) {
            Some(p) => apply_decisions(m, es).contains_key(k) && apply_decisions(m, es)[k] == p,
            None => {
                &&& apply_decisions(m, es).contains_key(k) == m.contains_key(k)
                &&& m.contains_key(k) ==> apply_decisions(m, es)[k] == m[k]
            },
        },
    decreases es.len(),
{
    if es.len() > 0 {
        lemma_apply_decisions_last(m, es.drop_last(), k);
    }
}

/// With caching enabled, a lookup after any sequence of insertions
/// returns the decision most recently inserted for that fingerprint.
pub proof fn lemma_get_returns_last_inserted(
    cache: &Cache,
    initial: Map<CacheKeyView, FirewallPolicy>,
    es: Seq<(CacheKeyView, FirewallPolicy)>,
    key: &CacheKey,
    p: FirewallPolicy,
    r: Option<FirewallPolicy>,
)
    requires
        cache.is_active(),
        cache@ == apply_decisions(initial, es),
        last_decision_for(es, key@) == Some(p),
        call_ensures(Cache::get, (cache, key), r),
    ensures
        r == Some(p),
{
    lemma_apply_decisions_last(initial, es, key@);
}

/// With caching disabled, a lookup returns nothing, whatever was
/// inserted before.
pub proof fn lemma_disabled_get_is_none(cache: &Cache, key: &CacheKey, r: Option<FirewallPolicy>)
    requires
        !cache.is_active(),
        call_ensures(Cache::get, (cache, key), r),
    ensures
        r is None,
{
}

/// A freshly reset cache serves nothing: after the defaults change
/// replaces the cache, no lookup can return a decision cached under the
/// prior configuration.
pub proof fn lemma_reset_cache_serves_nothing(
    cache: &Cache,
    key: &CacheKey,
    r: Option<FirewallPolicy>,
)
    requires
        cache@ == Map::<CacheKeyView, FirewallPolicy>::empty(),
        call_ensures(Cache::get, (cache, key), r),
    ensures
        r is None,
{
}

} // verus!
