//! The normalized fingerprint of a request, used to key the decision
//! cache. Query and header maps are order-independent, so two logically
//! identical requests compare equal whatever order their headers or query
//! parameters arrived in.
use vstd::prelude::*;

use crate::kv::KvMap;

verus! {

/// The mathematical identity of a fingerprint: every field by content,
/// the two maps as maps.
#[verifier::ext_equal]
pub struct CacheKeyView {
    pub original_url: Seq<char>,
    pub method: Seq<char>,
    pub query: Map<Seq<char>, Seq<char>>,
    pub headers: Map<Seq<char>, Seq<char>>,
    pub body: Seq<char>,
    pub source_ip: Seq<char>,
}

/// Data structure used by clients to create a cache entry for each request.
///
/// Equality is structural over all fields and independent of the order in
/// which query or header pairs were inserted.
pub struct CacheKey {
    pub original_url: String,
    pub method: String,
    pub query: KvMap,
    pub headers: KvMap,
    pub body: String,
    pub source_ip: String,
}

impl View for CacheKey {
    type V = CacheKeyView;

    open spec fn view(&self) -> CacheKeyView {
        CacheKeyView {
            original_url: self.original_url@,
            method: self.method@,
            query: self.query@,
            headers: self.headers@,
            body: self.body@,
            source_ip: self.source_ip@,
        }
    }
}

/// Two fingerprints whose maps were built from the same query pairs and
/// the same header pairs, in whatever orders, and that agree on the
/// scalar fields, are equal — so their exec comparison returns true and
/// they key the same cache entry.
///
/// Each pair list must carry distinct keys (header names after
/// lowercasing): a duplicated name is resolved in favour of the later
/// pair, so for it arrival order genuinely matters.
pub proof fn lemma_fingerprint_order_independent(
    k1: &CacheKey,
    k2: &CacheKey,
    q1: Seq<(Seq<char>, Seq<char>)>,
    q2: Seq<(Seq<char>, Seq<char>)>,
    h1: Seq<(Seq<char>, Seq<char>)>,
    h2: Seq<(Seq<char>, Seq<char>)>,
)
    requires
        k1.original_url@ == k2.original_url@,
        k1.method@ == k2.method@,
        k1.body@ == k2.body@,
        k1.source_ip@ == k2.source_ip@,
        k1.query@ == crate::kv::apply_pairs(Map::empty(), q1),
        k2.query@ == crate::kv::apply_pairs(Map::empty(), q2),
        q1.to_multiset() == q2.to_multiset(),
        crate::kv::view_keys_distinct(q1),
        crate::kv::view_keys_distinct(q2),
        k1.headers@ == crate::kv::apply_pairs(Map::empty(), h1),
        k2.headers@ == crate::kv::apply_pairs(Map::empty(), h2),
        h1.to_multiset() == h2.to_multiset(),
        crate::kv::view_keys_distinct(h1),
        crate::kv::view_keys_distinct(h2),
    ensures
        k1@ == k2@,
{
    crate::kv::lemma_build_order_irrelevant(Map::empty(), q1, q2);
    crate::kv::lemma_build_order_irrelevant(Map::empty(), h1, h2);
    assert(k1@ =~= k2@);
}

impl PartialEq for CacheKey {
    /// Structural equality over all fields; insertion order of the query
    /// and header maps does not matter.
    fn eq(&self, other: &CacheKey) -> (r: bool) {
        let r = self.original_url == other.original_url && self.method == other.method
            && self.query == other.query && self.headers == other.headers
            && self.body == other.body && self.source_ip == other.source_ip;
        proof {
            if r {
                assert(self@ =~= other@);
            }
        }
        r
    }
}

impl Eq for CacheKey {}

impl vstd::std_specs::cmp::PartialEqSpecImpl for CacheKey {
    open spec fn obeys_eq_spec() -> bool {
        true
    }

    open spec fn eq_spec(&self, other: &CacheKey) -> bool {
        self@ == other@
    }
}

impl Clone for CacheKey {
    /// A clone is an equal fingerprint.
    fn clone(&self) -> (r: Self)
        ensures
            r@ == self@,
    {
        let r = CacheKey {
            original_url: self.original_url.clone(),
            method: self.method.clone(),
            query: self.query.clone(),
            headers: self.headers.clone(),
            body: self.body.clone(),
            source_ip: self.source_ip.clone(),
        };
        proof {
            assert(r@ =~= self@);
        }
        r
    }
}

} // verus!
