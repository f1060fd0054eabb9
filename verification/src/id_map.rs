//! A map keyed by goal id that keeps its entries in insertion order.
//!
//! The server keeps several tables keyed by goal id. An association list makes
//! the iteration order a plain sequence, which lets contracts say exactly in
//! which order goals are reported.

use vstd::prelude::*;
use crate::ids::GoalId;

verus! {

spec fn unique_keys<V>(s: Seq<(GoalId, V)>) -> bool {
    forall|i: int, j: int| 0 <= i < s.len() && 0 <= j < s.len() && i != j ==> s[i].0 != s[j].0
}

spec fn has_key<V>(s: Seq<(GoalId, V)>, k: GoalId) -> bool {
    exists|i: int| 0 <= i < s.len() && #[trigger] s[i].0 == k
}

spec fn key_index<V>(s: Seq<(GoalId, V)>, k: GoalId) -> int {
    choose|i: int| 0 <= i < s.len() && #[trigger] s[i].0 == k
}

spec fn seq_to_map<V>(s: Seq<(GoalId, V)>) -> Map<GoalId, V> {
    Map::new(|k: GoalId| has_key(s, k), |k: GoalId| s[key_index(s, k)].1)
}

spec fn seq_keys<V>(s: Seq<(GoalId, V)>) -> Seq<GoalId> {
    s.map_values(|e: (GoalId, V)| e.0)
}

proof fn lemma_key_index<V>(s: Seq<(GoalId, V)>, i: int)
    requires
        unique_keys(s),
        0 <= i < s.len(),
    ensures
        has_key(s, s[i].0),
        key_index(s, s[i].0) == i,
        seq_to_map(s).contains_key(s[i].0),
        seq_to_map(s)[s[i].0] == s[i].1,
{
    assert(s[i].0 == s[i].0);
    let j = key_index(s, s[i].0);
    assert(0 <= j < s.len() && s[j].0 == s[i].0);
}

proof fn lemma_push<V>(s: Seq<(GoalId, V)>, k: GoalId, v: V)
    requires
        unique_keys(s),
        !has_key(s, k),
    ensures
        unique_keys(s.push((k, v))),
        seq_to_map(s.push((k, v))) =~= seq_to_map(s).insert(k, v),
        seq_keys(s.push((k, v))) =~= seq_keys(s).push(k),
{
    let s2 = s.push((k, v));
    assert forall|i: int, j: int| 0 <= i < s2.len() && 0 <= j < s2.len() && i != j implies s2[i].0
        != s2[j].0 by {
        if i == s.len() {
            assert(s2[j] == s[j]);
        } else if j == s.len() {
            assert(s2[i] == s[i]);
        } else {
            assert(s2[i] == s[i] && s2[j] == s[j]);
        }
    }
    assert forall|k2: GoalId| has_key(s2, k2) <==> (has_key(s, k2) || k2 == k) by {
        if has_key(s, k2) {
            let j = key_index(s, k2);
            assert(s2[j] == s[j]);
        }
        if k2 == k {
            assert(s2[s.len() as int].0 == k);
        }
        if has_key(s2, k2) {
            let j = key_index(s2, k2);
            if j < s.len() {
                assert(s2[j] == s[j]);
            }
        }
    }
    assert forall|k2: GoalId| #[trigger] seq_to_map(s2).contains_key(k2) implies seq_to_map(s2)[k2]
        == seq_to_map(s).insert(k, v)[k2] by {
        if k2 == k {
            lemma_key_index(s2, s.len() as int);
        } else {
            let j = key_index(s, k2);
            assert(s2[j] == s[j]);
            lemma_key_index(s2, j);
            lemma_key_index(s, j);
        }
    }
}

proof fn lemma_update<V>(s: Seq<(GoalId, V)>, i: int, v: V)
    requires
        unique_keys(s),
        0 <= i < s.len(),
    ensures
        unique_keys(s.update(i, (s[i].0, v))),
        seq_to_map(s.update(i, (s[i].0, v))) =~= seq_to_map(s).insert(s[i].0, v),
        seq_keys(s.update(i, (s[i].0, v))) =~= seq_keys(s),
{
    let k = s[i].0;
    let s2 = s.update(i, (k, v));
    assert forall|a: int, b: int| 0 <= a < s2.len() && 0 <= b < s2.len() && a != b implies s2[a].0
        != s2[b].0 by {
        assert(s2[a].0 == s[a].0 && s2[b].0 == s[b].0);
    }
    assert forall|k2: GoalId| has_key(s2, k2) <==> has_key(s, k2) by {
        if has_key(s, k2) {
            let j = key_index(s, k2);
            assert(s2[j].0 == s[j].0);
        }
        if has_key(s2, k2) {
            let j = key_index(s2, k2);
            assert(s2[j].0 == s[j].0);
        }
    }
    assert forall|k2: GoalId| #[trigger] seq_to_map(s2).contains_key(k2) implies seq_to_map(s2)[k2]
        == seq_to_map(s).insert(k, v)[k2] by {
        let j = key_index(s, k2);
        assert(s2[j].0 == s[j].0);
        lemma_key_index(s2, j);
        lemma_key_index(s, j);
    }
}

proof fn lemma_remove<V>(s: Seq<(GoalId, V)>, i: int)
    requires
        unique_keys(s),
        0 <= i < s.len(),
    ensures
        unique_keys(s.remove(i)),
        seq_to_map(s.remove(i)) =~= seq_to_map(s).remove(s[i].0),
{
    let k = s[i].0;
    let s2 = s.remove(i);
    assert forall|a: int| 0 <= a < s2.len() implies #[trigger] s2[a] == (if a < i {
        s[a]
    } else {
        s[a + 1]
    }) by {}
    assert forall|a: int, b: int| 0 <= a < s2.len() && 0 <= b < s2.len() && a != b implies s2[a].0
        != s2[b].0 by {
        let a1 = if a < i { a } else { a + 1 };
        let b1 = if b < i { b } else { b + 1 };
        assert(s2[a] == s[a1] && s2[b] == s[b1]);
    }
    assert forall|k2: GoalId| has_key(s2, k2) <==> (has_key(s, k2) && k2 != k) by {
        if has_key(s, k2) && k2 != k {
            let j = key_index(s, k2);
            if j < i {
                assert(s2[j] == s[j]);
            } else {
                assert(j != i);
                assert(s2[j - 1] == s[j]);
            }
        }
        if has_key(s2, k2) {
            let j = key_index(s2, k2);
            let j1 = if j < i { j } else { j + 1 };
            assert(s2[j] == s[j1]);
        }
    }
    assert forall|k2: GoalId| #[trigger] seq_to_map(s2).contains_key(k2) implies seq_to_map(s2)[k2]
        == seq_to_map(s).remove(k)[k2] by {
        let j = key_index(s2, k2);
        let j1 = if j < i { j } else { j + 1 };
        assert(s2[j] == s[j1]);
        lemma_key_index(s2, j);
        lemma_key_index(s, j1);
    }
}

/// The keys other than `k`.
pub open spec fn other_than(k: GoalId) -> spec_fn(GoalId) -> bool {
    |x: GoalId| x != k
}

/// Filtering by a predicate that every element meets changes nothing.
pub proof fn lemma_filter_keeps_all<A>(s: Seq<A>, p: spec_fn(A) -> bool)
    requires
        forall|j: int| 0 <= j < s.len() ==> p(#[trigger] s[j]),
    ensures
        s.filter(p) == s,
    decreases s.len(),
{
    reveal(Seq::filter);
    if s.len() > 0 {
        lemma_filter_keeps_all(s.drop_last(), p);
        assert(s.drop_last().push(s.last()) =~= s);
    }
}

/// Filtering twice is filtering once by both predicates.
pub proof fn lemma_filter_twice<A>(s: Seq<A>, p: spec_fn(A) -> bool, q: spec_fn(A) -> bool, r: spec_fn(A) -> bool)
    requires
        forall|x: A| #[trigger] r(x) == (p(x) && q(x)),
    ensures
        s.filter(p).filter(q) == s.filter(r),
    decreases s.len(),
{
    reveal(Seq::filter);
    if s.len() > 0 {
        let prefix = s.drop_last();
        lemma_filter_twice(prefix, p, q, r);
        let fp = prefix.filter(p);
        if p(s.last()) {
            assert(fp.push(s.last()).drop_last() =~= fp);
        }
    }
}

/// Removing the element at `i` from a sequence without duplicates keeps every
/// other element, in order.
pub proof fn lemma_remove_is_filter(s: Seq<GoalId>, i: int)
    requires
        s.no_duplicates(),
        0 <= i < s.len(),
    ensures
        s.remove(i) == s.filter(other_than(s[i])),
{
    let k = s[i];
    let p = other_than(k);
    let a = s.take(i);
    let b = s.skip(i + 1);
    assert(s =~= a + seq![k] + b);
    assert forall|j: int| 0 <= j < a.len() implies p(#[trigger] a[j]) by {
        assert(a[j] == s[j]);
    }
    assert forall|j: int| 0 <= j < b.len() implies p(#[trigger] b[j]) by {
        assert(b[j] == s[i + 1 + j]);
    }
    lemma_filter_keeps_all(a, p);
    lemma_filter_keeps_all(b, p);
    Seq::filter_distributes_over_add(a + seq![k], b, p);
    Seq::filter_distributes_over_add(a, seq![k], p);
    assert(seq![k].filter(p) =~= Seq::<GoalId>::empty()) by {
        reveal(Seq::filter);
        let t = seq![k];
        assert(t.drop_last() =~= Seq::<GoalId>::empty());
        assert(Seq::<GoalId>::empty().filter(p) =~= Seq::<GoalId>::empty());
        assert(t.last() == k);
        assert(!p(k));
    }
    assert(s.remove(i) =~= a + b);
}

/// A finite map from goal ids to values, iterated in insertion order.
pub struct IdMap<V> {
    entries: Vec<(GoalId, V)>,
}

impl<V> View for IdMap<V> {
    type V = Map<GoalId, V>;

    closed spec fn view(&self) -> Map<GoalId, V> {
        seq_to_map(self.entries@)
    }
}

impl<V> IdMap<V> {
    #[verifier::type_invariant]
    spec fn keys_are_unique(self) -> bool {
        unique_keys(self.entries@)
    }

    /// The keys in iteration order.
    pub closed spec fn keys(self) -> Seq<GoalId> {
        seq_keys(self.entries@)
    }

    /// The facts that hold of every map: its keys are distinct, they are
    /// exactly its domain, and the value at each position is the mapped value.
    pub open spec fn consistent(self) -> bool {
        &&& self.keys().no_duplicates()
        &&& forall|k: GoalId| #[trigger] self@.contains_key(k) <==> self.keys().contains(k)
        &&& self@.dom().finite()
        &&& self@.dom().len() == self.keys().len()
    }

    proof fn lemma_consistent(self)
        requires
            unique_keys(self.entries@),
        ensures
            self.consistent(),
        decreases self.entries@.len(),
    {
        let s = self.entries@;
        let ks = seq_keys(s);
        assert forall|a: int, b: int| 0 <= a < ks.len() && 0 <= b < ks.len() && a != b implies ks[a]
            != ks[b] by {}
        assert forall|k: GoalId| #[trigger] self@.contains_key(k) <==> ks.contains(k) by {
            if has_key(s, k) {
                let j = key_index(s, k);
                assert(ks[j] == k);
            }
            if ks.contains(k) {
                let j = choose|j: int| 0 <= j < ks.len() && ks[j] == k;
                assert(s[j].0 == k);
            }
        }
        assert(self@.dom() =~= ks.to_set());
        ks.unique_seq_to_set();
    }

    pub fn new() -> (r: Self)
        ensures
            r@ == Map::<GoalId, V>::empty(),
            r.keys() == Seq::<GoalId>::empty(),
    {
        let r = IdMap { entries: Vec::new() };
        assert(r@ =~= Map::<GoalId, V>::empty());
        assert(r.keys() =~= Seq::<GoalId>::empty());
        r
    }

    /// The number of entries.
    pub fn len(&self) -> (r: usize)
        ensures
            r == self.keys().len(),
            self.consistent(),
    {
        proof {
            use_type_invariant(self);
            self.lemma_consistent();
        }
        self.entries.len()
    }

    fn index_of(&self, k: &GoalId) -> (r: Option<usize>)
        ensures
            r matches Some(i) ==> i < self.entries@.len() && self.entries@[i as int].0 == *k,
            r is None ==> !has_key(self.entries@, *k),
    {
        let n = self.entries.len();
        let mut i: usize = 0;
        while i < n
            invariant
                n == self.entries@.len(),
                i <= n,
                forall|j: int| 0 <= j < i ==> self.entries@[j].0 != *k,
            decreases n - i,
        {
            if self.entries[i].0 == *k {
                return Some(i);
            }
            i = i + 1;
        }
        None
    }

    pub fn contains_key(&self, k: &GoalId) -> (r: bool)
        ensures
            r == self@.contains_key(*k),
    {
        self.index_of(k).is_some()
    }

    pub fn get(&self, k: &GoalId) -> (r: Option<&V>)
        ensures
            r is Some <==> self@.contains_key(*k),
            r matches Some(v) ==> *v == self@[*k],
    {
        proof {
            use_type_invariant(self);
        }
        match self.index_of(k) {
            Some(i) => {
                proof {
                    lemma_key_index(self.entries@, i as int);
                }
                Some(&self.entries[i].1)
            },
            None => None,
        }
    }

    /// The key at position `i` of the iteration order.
    pub fn key_at(&self, i: usize) -> (r: GoalId)
        requires
            i < self.keys().len(),
        ensures
            r == self.keys()[i as int],
            self@.contains_key(r),
    {
        proof {
            use_type_invariant(self);
            lemma_key_index(self.entries@, i as int);
        }
        self.entries[i].0
    }

    /// The value at position `i` of the iteration order.
    pub fn value_at(&self, i: usize) -> (r: &V)
        requires
            i < self.keys().len(),
        ensures
            *r == self@[self.keys()[i as int]],
    {
        proof {
            use_type_invariant(self);
            lemma_key_index(self.entries@, i as int);
        }
        &self.entries[i].1
    }

    /// Maps `k` to `v`. An existing key keeps its position; a new key goes last.
    /// Returns the value that `k` had.
    pub fn insert(&mut self, k: GoalId, v: V) -> (r: Option<V>)
        ensures
            final(self)@ == old(self)@.insert(k, v),
            old(self)@.contains_key(k) ==> r == Some(old(self)@[k]) && final(self).keys()
                == old(self).keys(),
            !old(self)@.contains_key(k) ==> r is None && final(self).keys() == old(self).keys().push(
                k,
            ),
    {
        proof {
            use_type_invariant(&*self);
        }
        match self.index_of(&k) {
            Some(i) => {
                proof {
                    lemma_key_index(self.entries@, i as int);
                    lemma_update(self.entries@, i as int, v);
                }
                let mut entries = Vec::new();
                std::mem::swap(&mut entries, &mut self.entries);
                let (_, old_v) = entries.remove(i);
                entries.insert(i, (k, v));
                assert(entries@ =~= old(self).entries@.update(i as int, (k, v)));
                self.entries = entries;
                Some(old_v)
            },
            None => {
                proof {
                    lemma_push(self.entries@, k, v);
                }
                let mut entries = Vec::new();
                std::mem::swap(&mut entries, &mut self.entries);
                entries.push((k, v));
                self.entries = entries;
                None
            },
        }
    }

    /// Removes `k` and returns the value it had. The other keys keep their
    /// order.
    pub fn remove(&mut self, k: &GoalId) -> (r: Option<V>)
        ensures
            final(self)@ == old(self)@.remove(*k),
            final(self).keys() == old(self).keys().filter(other_than(*k)),
            r == (if old(self)@.contains_key(*k) {
                Some(old(self)@[*k])
            } else {
                None::<V>
            }),
    {
        proof {
            use_type_invariant(&*self);
        }
        match self.index_of(k) {
            Some(i) => {
                proof {
                    lemma_key_index(self.entries@, i as int);
                    lemma_remove(self.entries@, i as int);
                    self.lemma_consistent();
                    lemma_remove_is_filter(self.keys(), i as int);
                    assert(seq_keys(self.entries@.remove(i as int)) =~= self.keys().remove(i as int));
                }
                let mut entries = Vec::new();
                std::mem::swap(&mut entries, &mut self.entries);
                let (_, v) = entries.remove(i);
                self.entries = entries;
                Some(v)
            },
            None => {
                assert(self@ =~= old(self)@.remove(*k));
                proof {
                    let ks = self.keys();
                    assert forall|j: int| 0 <= j < ks.len() implies other_than(*k)(#[trigger] ks[j]) by {
                        assert(self.entries@[j].0 == ks[j]);
                    }
                    lemma_filter_keeps_all(ks, other_than(*k));
                }
                None
            },
        }
    }
}

} // verus!
