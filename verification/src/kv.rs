//! A small string-keyed association map with set semantics: the order in
//! which pairs were inserted is irrelevant to what the map holds, so two
//! maps built from the same pairs in different orders compare equal.
//!
//! Request fingerprints use this for their query and header maps, where
//! header/query arrival order must not affect cache identity.
use vstd::prelude::*;

verus! {

/// True when no two pairs of `s` share a key.
pub open spec fn keys_distinct(s: Seq<(String, String)>) -> bool {
    forall|i: int, j: int|
        0 <= i < j < s.len() ==> (#[trigger] s[i]).0@ != (#[trigger] s[j]).0@
}

/// The mathematical map holding exactly the pairs of `s`; on duplicate
/// keys the later pair wins.
pub open spec fn map_of(s: Seq<(String, String)>) -> Map<Seq<char>, Seq<char>>
    decreases s.len(),
{
    if s.len() == 0 {
        Map::empty()
    } else {
        map_of(s.drop_last()).insert(s.last().0@, s.last().1@)
    }
}

/// A key is in `map_of(s)` exactly when some pair of `s` holds it.
pub proof fn lemma_map_of_contains(s: Seq<(String, String)>)
    ensures
        map_of(s).dom().finite(),
        forall|k: Seq<char>|
            map_of(s).contains_key(k) <==> exists|i: int|
                0 <= i < s.len() && (#[trigger] s[i]).0@ == k,
    decreases s.len(),
{
    if s.len() > 0 {
        lemma_map_of_contains(s.drop_last());
        assert forall|k: Seq<char>| map_of(s).contains_key(k) implies exists|i: int|
            0 <= i < s.len() && (#[trigger] s[i]).0@ == k by {
            if k == s.last().0@ {
                assert(s[s.len() - 1].0@ == k);
            } else {
                let i = choose|i: int| 0 <= i < s.drop_last().len() && (#[trigger] s.drop_last()[i]).0@ == k;
                assert(s[i].0@ == k);
            }
        }
        assert forall|k: Seq<char>|
            (exists|i: int| 0 <= i < s.len() && (#[trigger] s[i]).0@ == k) implies map_of(
            s,
        ).contains_key(k) by {
            let i = choose|i: int| 0 <= i < s.len() && (#[trigger] s[i]).0@ == k;
            if i < s.len() - 1 {
                assert(s.drop_last()[i].0@ == k);
            }
        }
    }
}

/// Under distinct keys, the pair at `i` gives the value of its key.
pub proof fn lemma_map_of_index(s: Seq<(String, String)>, i: int)
    requires
        keys_distinct(s),
        0 <= i < s.len(),
    ensures
        map_of(s).contains_key(s[i].0@),
        map_of(s)[s[i].0@] == s[i].1@,
    decreases s.len(),
{
    if i < s.len() - 1 {
        assert(s.drop_last()[i] == s[i]);
        lemma_map_of_index(s.drop_last(), i);
        assert(s[i].0@ != s.last().0@);
    }
}

/// Replacing the pair at `i` by one with an equal key updates the map at
/// that key and nothing else.
proof fn lemma_map_of_update(s: Seq<(String, String)>, i: int, p: (String, String))
    requires
        keys_distinct(s),
        0 <= i < s.len(),
        p.0@ == s[i].0@,
    ensures
        map_of(s.update(i, p)) == map_of(s).insert(p.0@, p.1@),
    decreases s.len(),
{
    let t = s.update(i, p);
    if i == s.len() - 1 {
        assert(t.drop_last() =~= s.drop_last());
        assert(map_of(t) =~= map_of(s).insert(p.0@, p.1@));
    } else {
        assert(t.drop_last() =~= s.drop_last().update(i, p));
        assert(s.drop_last()[i] == s[i]);
        lemma_map_of_update(s.drop_last(), i, p);
        assert(s[i].0@ != s.last().0@);
        assert(t.last() == s.last());
        assert(map_of(t) =~= map_of(s).insert(p.0@, p.1@));
    }
}

/// An insertion-order-independent map from string keys to string values.
/// Its view is the `Map` of its contents; all operations are specified
/// against that view alone.
pub struct KvMap {
    pairs: Vec<(String, String)>,
}

impl View for KvMap {
    type V = Map<Seq<char>, Seq<char>>;

    closed spec fn view(&self) -> Map<Seq<char>, Seq<char>> {
        map_of(self.pairs@)
    }
}

impl KvMap {
    #[verifier::type_invariant]
    spec fn wf(&self) -> bool {
        keys_distinct(self.pairs@)
    }

    /// The empty map.
    pub fn new() -> (m: Self)
        ensures
            m@ == Map::<Seq<char>, Seq<char>>::empty(),
    {
        KvMap { pairs: Vec::new() }
    }

    /// How many keys the map holds.
    pub fn len(&self) -> (n: usize)
        ensures
            n == self@.dom().len(),
    {
        proof {
            use_type_invariant(&*self);
            lemma_map_of_dom_len(self.pairs@);
        }
        self.pairs.len()
    }

    /// Looks a key up.
    pub fn get(&self, key: &String) -> (r: Option<&String>)
        ensures
            match r {
                Some(v) => self@.contains_key(key@) && self@[key@] == v@,
                None => !self@.contains_key(key@),
            },
    {
        proof {
            use_type_invariant(&*self);
            lemma_map_of_contains(self.pairs@);
        }
        let n = self.pairs.len();
        let mut idx: usize = 0;
        while idx < n
            invariant
                n == self.pairs@.len(),
                idx <= n,
                keys_distinct(self.pairs@),
                forall|j: int| 0 <= j < idx ==> (#[trigger] self.pairs@[j]).0@ != key@,
            decreases n - idx,
        {
            if self.pairs[idx].0 == *key {
                proof {
                    lemma_map_of_index(self.pairs@, idx as int);
                }
                return Some(&self.pairs[idx].1);
            }
            idx += 1;
        }
        None
    }

    /// Inserts a pair, replacing any pair with an equal key.
    pub fn insert(&mut self, key: String, value: String)
        ensures
            final(self)@ == old(self)@.insert(key@, value@),
    {
        proof {
            use_type_invariant(&*self);
        }
        let mut pairs: Vec<(String, String)> = Vec::new();
        core::mem::swap(&mut pairs, &mut self.pairs);
        let n = pairs.len();
        let mut idx: usize = 0;
        while idx < n
            invariant
                n == pairs@.len(),
                idx <= n,
                keys_distinct(pairs@),
                pairs@ == old(self).pairs@,
                forall|j: int| 0 <= j < idx ==> (#[trigger] pairs@[j]).0@ != key@,
            decreases n - idx,
        {
            if pairs[idx].0 == key {
                proof {
                    lemma_map_of_update(pairs@, idx as int, (key, value));
                }
                pairs[idx] = (key, value);
                self.pairs = pairs;
                return;
            }
            idx += 1;
        }
        proof {
            lemma_map_of_contains(pairs@);
            assert(pairs@.push((key, value)).drop_last() =~= pairs@);
        }
        pairs.push((key, value));
        self.pairs = pairs;
    }

    /// Whether the map holds exactly this pair.
    pub fn contains_pair(&self, key: &String, value: &String) -> (r: bool)
        ensures
            r == (self@.contains_key(key@) && self@[key@] == value@),
    {
        match self.get(key) {
            Some(v) => *v == *value,
            None => false,
        }
    }

    /// The pairs as a vector, one per key.
    pub fn as_pairs(&self) -> (r: &Vec<(String, String)>)
        ensures
            map_of(r@) == self@,
            keys_distinct(r@),
            r@.len() == self@.dom().len(),
            forall|i: int|
                0 <= i < r@.len() ==> self@.contains_key((#[trigger] r@[i]).0@) && self@[r@[i].0@]
                    == r@[i].1@,
    {
        proof {
            use_type_invariant(&*self);
            lemma_map_of_dom_len(self.pairs@);
            assert forall|i: int|
                0 <= i < self.pairs@.len() implies self@.contains_key(
                (#[trigger] self.pairs@[i]).0@,
            ) && self@[self.pairs@[i].0@] == self.pairs@[i].1@ by {
                lemma_map_of_index(self.pairs@, i);
            }
        }
        &self.pairs
    }
}

/// Under distinct keys the map holds exactly as many keys as `s` has pairs.
pub proof fn lemma_map_of_dom_len(s: Seq<(String, String)>)
    requires
        keys_distinct(s),
    ensures
        map_of(s).dom().finite(),
        map_of(s).dom().len() == s.len(),
    decreases s.len(),
{
    lemma_map_of_contains(s);
    if s.len() > 0 {
        lemma_map_of_dom_len(s.drop_last());
        lemma_map_of_contains(s.drop_last());
        assert(!map_of(s.drop_last()).contains_key(s.last().0@));
        assert(map_of(s).dom() =~= map_of(s.drop_last()).dom().insert(s.last().0@));
    }
}

impl PartialEq for KvMap {
    /// Equality is equality of contents, whatever order built the maps.
    fn eq(&self, other: &KvMap) -> (r: bool) {
        proof {
            use_type_invariant(&*self);
            use_type_invariant(&*other);
        }
        let my_pairs = self.as_pairs();
        let other_pairs = other.as_pairs();
        if my_pairs.len() != other_pairs.len() {
            proof {
                lemma_map_of_dom_len(my_pairs@);
                lemma_map_of_dom_len(other_pairs@);
                assert(self@ != other@) by {
                    if self@ == other@ {
                        assert(self@.dom().len() == other@.dom().len());
                    }
                }
            }
            return false;
        }
        let n = my_pairs.len();
        let mut idx: usize = 0;
        while idx < n
            invariant
                n == my_pairs@.len(),
                idx <= n,
                map_of(my_pairs@) == self@,
                keys_distinct(my_pairs@),
                forall|j: int|
                    0 <= j < idx ==> other@.contains_key((#[trigger] my_pairs@[j]).0@)
                        && other@[my_pairs@[j].0@] == my_pairs@[j].1@,
            decreases n - idx,
        {
            proof {
                lemma_map_of_index(my_pairs@, idx as int);
            }
            if !other.contains_pair(&my_pairs[idx].0, &my_pairs[idx].1) {
                return false;
            }
            idx += 1;
        }
        proof {
            lemma_map_of_contains(my_pairs@);
            lemma_map_of_dom_len(my_pairs@);
            lemma_map_of_dom_len(other_pairs@);
            assert forall|k: Seq<char>| self@.contains_key(k) implies other@.contains_key(k)
                && other@[k] == self@[k] by {
                let i = choose|i: int| 0 <= i < my_pairs@.len() && (#[trigger] my_pairs@[i]).0@ == k;
                lemma_map_of_index(my_pairs@, i);
            }
            assert(self@.dom().len() == other@.dom().len());
            lemma_subset_with_equal_len_is_equal(self@.dom(), other@.dom());
            assert(self@ =~= other@);
        }
        true
    }
}

impl Eq for KvMap {}

impl vstd::std_specs::cmp::PartialEqSpecImpl for KvMap {
    open spec fn obeys_eq_spec() -> bool {
        true
    }

    open spec fn eq_spec(&self, other: &KvMap) -> bool {
        self@ == other@
    }
}

/// A finite set that contains another of the same size is equal to it.
proof fn lemma_subset_with_equal_len_is_equal(a: Set<Seq<char>>, b: Set<Seq<char>>)
    requires
        a.finite(),
        b.finite(),
        a.subset_of(b),
        a.len() == b.len(),
    ensures
        a == b,
{
    if exists|x: Seq<char>| b.contains(x) && !a.contains(x) {
        let x = choose|x: Seq<char>| b.contains(x) && !a.contains(x);
        assert(a.subset_of(b.remove(x)));
        vstd::set_lib::lemma_len_subset(a, b.remove(x));
        assert(b.remove(x).len() == b.len() - 1);
    }
    assert(a =~= b);
}

impl Clone for KvMap {
    /// A clone holds the same contents.
    fn clone(&self) -> (r: Self)
        ensures
            r@ == self@,
    {
        proof {
            use_type_invariant(&*self);
        }
        let mut pairs: Vec<(String, String)> = Vec::new();
        let n = self.pairs.len();
        let mut idx: usize = 0;
        while idx < n
            invariant
                n == self.pairs@.len(),
                idx <= n,
                pairs@.len() == idx,
                forall|j: int|
                    0 <= j < idx ==> (#[trigger] pairs@[j]).0@ == self.pairs@[j].0@ && pairs@[j].1@
                        == self.pairs@[j].1@,
            decreases n - idx,
        {
            let key = self.pairs[idx].0.clone();
            let value = self.pairs[idx].1.clone();
            pairs.push((key, value));
            idx += 1;
        }
        proof {
            lemma_map_of_congruent(pairs@, self.pairs@);
        }
        KvMap { pairs }
    }
}

/// The views of a sequence of string pairs.
pub open spec fn pairs_views(s: Seq<(String, String)>) -> Seq<(Seq<char>, Seq<char>)> {
    s.map_values(|p: (String, String)| (p.0@, p.1@))
}

/// Inserting a sequence of view pairs into a map, in order; on duplicate
/// keys the later pair wins.
pub open spec fn apply_pairs(
    m: Map<Seq<char>, Seq<char>>,
    ps: Seq<(Seq<char>, Seq<char>)>,
) -> Map<Seq<char>, Seq<char>>
    decreases ps.len(),
{
    if ps.len() == 0 {
        m
    } else {
        apply_pairs(m, ps.drop_last()).insert(ps.last().0, ps.last().1)
    }
}

/// True when no two view pairs of `ps` share a key.
pub open spec fn view_keys_distinct(ps: Seq<(Seq<char>, Seq<char>)>) -> bool {
    forall|i: int, j: int|
        0 <= i < j < ps.len() ==> (#[trigger] ps[i]).0 != (#[trigger] ps[j]).0
}

/// Under distinct keys, a pair may be inserted last instead of at its
/// own position without changing the resulting map.
proof fn lemma_apply_pairs_pull_to_back(
    m: Map<Seq<char>, Seq<char>>,
    ps: Seq<(Seq<char>, Seq<char>)>,
    j: int,
)
    requires
        view_keys_distinct(ps),
        0 <= j < ps.len(),
    ensures
        apply_pairs(m, ps) == apply_pairs(m, ps.remove(j)).insert(ps[j].0, ps[j].1),
    decreases ps.len(),
{
    let dl = ps.drop_last();
    if j == ps.len() - 1 {
        assert(ps.remove(j) =~= dl);
    } else {
        assert forall|a: int, b: int| 0 <= a < b < dl.len() implies (#[trigger] dl[a]).0 != (
        #[trigger] dl[b]).0 by {
            assert(dl[a] == ps[a] && dl[b] == ps[b]);
        }
        lemma_apply_pairs_pull_to_back(m, dl, j);
        assert(ps[j].0 != ps.last().0);
        let base = apply_pairs(m, dl.remove(j));
        assert(base.insert(ps[j].0, ps[j].1).insert(ps.last().0, ps.last().1) =~= base.insert(
            ps.last().0,
            ps.last().1,
        ).insert(ps[j].0, ps[j].1));
        let moved = dl.remove(j).push(ps.last());
        assert(moved.drop_last() =~= dl.remove(j));
        assert(apply_pairs(m, moved) == base.insert(ps.last().0, ps.last().1));
        assert(ps.remove(j) =~= moved);
    }
}

/// Insertion order is irrelevant: two pair sequences holding the same
/// pairs, each with distinct keys, build the same map — the
/// order-independence at the heart of the request fingerprint.
///
/// The distinct-keys premise is essential: with a duplicated key the
/// later pair wins, so the orders `(k, a), (k, b)` and `(k, b), (k, a)`
/// build different maps.
pub proof fn lemma_build_order_irrelevant(
    m: Map<Seq<char>, Seq<char>>,
    ps1: Seq<(Seq<char>, Seq<char>)>,
    ps2: Seq<(Seq<char>, Seq<char>)>,
)
    requires
        ps1.to_multiset() == ps2.to_multiset(),
        view_keys_distinct(ps1),
        view_keys_distinct(ps2),
    ensures
        apply_pairs(m, ps1) == apply_pairs(m, ps2),
    decreases ps1.len(),
{
    broadcast use vstd::seq_lib::group_to_multiset_ensures;

    if ps1.len() == 0 {
        assert(ps2.to_multiset().len() == 0);
        assert(ps2.len() == 0);
    } else {
        let a = ps1.last();
        let last_idx = ps1.len() - 1;
        assert(ps1[last_idx] == a);
        assert(ps1.contains(a));
        assert(ps2.to_multiset().count(a) > 0);
        assert(ps2.contains(a));
        let j = choose|j: int| 0 <= j < ps2.len() && ps2[j] == a;
        lemma_apply_pairs_pull_to_back(m, ps2, j);
        let dl = ps1.drop_last();
        assert(dl =~= ps1.remove(last_idx));
        assert(ps1.remove(last_idx).to_multiset() == ps1.to_multiset().remove(a));
        assert(ps2.remove(j).to_multiset() == ps2.to_multiset().remove(a));
        assert forall|x: int, y: int| 0 <= x < y < dl.len() implies (#[trigger] dl[x]).0 != (
        #[trigger] dl[y]).0 by {
            assert(dl[x] == ps1[x] && dl[y] == ps1[y]);
        }
        let r2 = ps2.remove(j);
        assert forall|x: int, y: int| 0 <= x < y < r2.len() implies (#[trigger] r2[x]).0 != (
        #[trigger] r2[y]).0 by {
            let ox = if x < j {
                x
            } else {
                x + 1
            };
            let oy = if y < j {
                y
            } else {
                y + 1
            };
            assert(r2[x] == ps2[ox] && r2[y] == ps2[oy]);
        }
        lemma_build_order_irrelevant(m, dl, r2);
    }
}

/// Pairwise view-equal pair sequences build the same map.
proof fn lemma_map_of_congruent(a: Seq<(String, String)>, b: Seq<(String, String)>)
    requires
        a.len() == b.len(),
        forall|j: int|
            0 <= j < a.len() ==> (#[trigger] a[j]).0@ == b[j].0@ && a[j].1@ == b[j].1@,
    ensures
        map_of(a) == map_of(b),
        keys_distinct(b) ==> keys_distinct(a),
    decreases a.len(),
{
    if a.len() > 0 {
        assert forall|j: int|
            0 <= j < a.drop_last().len() implies (#[trigger] a.drop_last()[j]).0@
            == b.drop_last()[j].0@ && a.drop_last()[j].1@ == b.drop_last()[j].1@ by {
            assert(a[j].0@ == b[j].0@ && a[j].1@ == b[j].1@);
        }
        lemma_map_of_congruent(a.drop_last(), b.drop_last());
        assert(map_of(a) =~= map_of(b));
    }
}

} // verus!
