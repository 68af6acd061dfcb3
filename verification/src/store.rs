//! A key-addressed store of records, kept as an association list with
//! pairwise-distinct keys. Contracts speak through the spec-level [`lookup`]
//! function, so callers reason about the store as a partial map from
//! addresses to records.

use vstd::prelude::*;
use crate::addr::Address;

verus! {

/// The record stored under `k`, if any: the first entry whose key is `k`.
pub open spec fn lookup<V>(s: Seq<(Address, V)>, k: Address) -> Option<V>
    decreases s.len(),
{
    if s.len() == 0 {
        None
    } else if s[0].0 == k {
        Some(s[0].1)
    } else {
        lookup(s.drop_first(), k)
    }
}

/// Keys are pairwise distinct.
pub open spec fn distinct_keys<V>(s: Seq<(Address, V)>) -> bool {
    forall|i: int, j: int| 0 <= i < j < s.len() ==> (#[trigger] s[i]).0 != (#[trigger] s[j]).0
}

/// `lookup` finds exactly the keys that occur in the sequence.
pub proof fn lemma_lookup_occurs<V>(s: Seq<(Address, V)>, k: Address)
    ensures
        lookup(s, k) is Some <==> exists|i: int| 0 <= i < s.len() && (#[trigger] s[i]).0 == k,
    decreases s.len(),
{
    if s.len() > 0 {
        lemma_lookup_occurs(s.drop_first(), k);
        if s[0].0 != k {
            if lookup(s, k) is Some {
                let i = choose|i: int| 0 <= i < s.drop_first().len() && (#[trigger] s.drop_first()[i]).0 == k;
                assert(s[i + 1].0 == k);
            }
            if exists|i: int| 0 <= i < s.len() && (#[trigger] s[i]).0 == k {
                let i = choose|i: int| 0 <= i < s.len() && (#[trigger] s[i]).0 == k;
                assert(s.drop_first()[i - 1].0 == k);
            }
        }
    }
}

/// Under distinct keys, an entry `(k, v)` at any position is what `lookup`
/// returns for `k`.
pub proof fn lemma_lookup_at<V>(s: Seq<(Address, V)>, i: int)
    requires
        distinct_keys(s),
        0 <= i < s.len(),
    ensures
        lookup(s, s[i].0) == Some(s[i].1),
    decreases s.len(),
{
    if i == 0 {
    } else {
        assert(s[0].0 != s[i].0);
        assert(s.drop_first()[i - 1] == s[i]);
        lemma_lookup_at(s.drop_first(), i - 1);
    }
}

/// Appending an entry with a fresh key adds exactly that binding.
pub proof fn lemma_lookup_push<V>(s: Seq<(Address, V)>, k: Address, v: V, q: Address)
    requires
        lookup(s, k) is None,
    ensures
        lookup(s.push((k, v)), q) == if q == k {
            Some(v)
        } else {
            lookup(s, q)
        },
    decreases s.len(),
{
    if s.len() == 0 {
        assert(s.push((k, v)).drop_first() =~= Seq::<(Address, V)>::empty());
    } else {
        assert(s.push((k, v)).drop_first() =~= s.drop_first().push((k, v)));
        lemma_lookup_push(s.drop_first(), k, v, q);
    }
}

/// Removing the entry at `i` removes its binding and no other.
pub proof fn lemma_lookup_remove<V>(s: Seq<(Address, V)>, i: int, q: Address)
    requires
        distinct_keys(s),
        0 <= i < s.len(),
    ensures
        lookup(s.remove(i), q) == if q == s[i].0 {
            None::<V>
        } else {
            lookup(s, q)
        },
    decreases s.len(),
{
    lemma_lookup_occurs(s, q);
    lemma_lookup_occurs(s.remove(i), q);
    if i == 0 {
        assert(s.remove(0) =~= s.drop_first());
        if q == s[0].0 {
            if lookup(s.drop_first(), q) is Some {
                let j = choose|j: int|
                    0 <= j < s.drop_first().len() && (#[trigger] s.drop_first()[j]).0 == q;
                assert(s[j + 1].0 == s[0].0);
            }
        }
    } else {
        assert(s.remove(i).drop_first() =~= s.drop_first().remove(i - 1));
        assert(s.drop_first()[i - 1] == s[i]);
        lemma_lookup_remove(s.drop_first(), i - 1, q);
    }
}

/// Distinct keys survive appending a fresh key.
pub proof fn lemma_distinct_push<V>(s: Seq<(Address, V)>, k: Address, v: V)
    requires
        distinct_keys(s),
        lookup(s, k) is None,
    ensures
        distinct_keys(s.push((k, v))),
{
    lemma_lookup_occurs(s, k);
}

/// Distinct keys survive removing an entry.
pub proof fn lemma_distinct_remove<V>(s: Seq<(Address, V)>, i: int)
    requires
        distinct_keys(s),
        0 <= i < s.len(),
    ensures
        distinct_keys(s.remove(i)),
{
    assert forall|a: int, b: int| 0 <= a < b < s.remove(i).len() implies (#[trigger] s.remove(
        i,
    )[a]).0 != (#[trigger] s.remove(i)[b]).0 by {
        let a0 = if a < i {
            a
        } else {
            a + 1
        };
        let b0 = if b < i {
            b
        } else {
            b + 1
        };
        assert(s.remove(i)[a] == s[a0]);
        assert(s.remove(i)[b] == s[b0]);
    }
}

/// A store of records addressed by [`Address`].
pub struct KeyMap<V> {
    pub entries: Vec<(Address, V)>,
}

impl<V> View for KeyMap<V> {
    type V = Seq<(Address, V)>;

    open spec fn view(&self) -> Seq<(Address, V)> {
        self.entries@
    }
}

impl<V> KeyMap<V> {
    /// Keys are pairwise distinct.
    pub open spec fn wf(self) -> bool {
        distinct_keys(self@)
    }

    /// The record stored under `k`, if any.
    pub open spec fn spec_get(self, k: Address) -> Option<V> {
        lookup(self@, k)
    }

    /// An empty store.
    pub fn new() -> (r: KeyMap<V>)
        ensures
            r.wf(),
            forall|k: Address| r.spec_get(k) is None,
    {
        let r = KeyMap { entries: Vec::new() };
        proof {
            assert forall|k: Address| r.spec_get(k) is None by {
                lemma_lookup_occurs(r@, k);
            }
        }
        r
    }

    /// The position of the entry whose key is `k`, if any.
    fn index_of(&self, k: &Address) -> (r: Option<usize>)
        requires
            self.wf(),
        ensures
            match r {
                Some(i) => i < self@.len() && self@[i as int].0 == *k && self.spec_get(*k)
                    == Some(self@[i as int].1),
                None => self.spec_get(*k) is None,
            },
    {
        let n = self.entries.len();
        let mut i: usize = 0;
        while i < n
            invariant
                self.wf(),
                n == self@.len(),
                i <= n,
                forall|j: int| 0 <= j < i ==> (#[trigger] self@[j]).0 != *k,
            decreases n - i,
        {
            if self.entries[i].0 == *k {
                proof {
                    lemma_lookup_at(self@, i as int);
                }
                return Some(i);
            }
            i = i + 1;
        }
        proof {
            lemma_lookup_occurs(self@, *k);
        }
        None
    }

    /// Whether a record is stored under `k`.
    pub fn contains_key(&self, k: &Address) -> (r: bool)
        requires
            self.wf(),
        ensures
            r <==> self.spec_get(*k) is Some,
    {
        self.index_of(k).is_some()
    }

    /// A reference to the record stored under `k`, if any.
    pub fn get(&self, k: &Address) -> (r: Option<&V>)
        requires
            self.wf(),
        ensures
            match r {
                Some(v) => self.spec_get(*k) == Some(*v),
                None => self.spec_get(*k) is None,
            },
    {
        match self.index_of(k) {
            Some(i) => Some(&self.entries[i].1),
            None => None,
        }
    }

    /// Stores `v` under the fresh key `k`.
    pub fn insert(&mut self, k: Address, v: V)
        requires
            old(self).wf(),
            old(self).spec_get(k) is None,
        ensures
            final(self).wf(),
            final(self).spec_get(k) == Some(v),
            forall|q: Address| q != k ==> final(self).spec_get(q) == old(self).spec_get(q),
            final(self)@ == old(self)@.push((k, v)),
    {
        proof {
            lemma_distinct_push(self@, k, v);
        }
        self.entries.push((k, v));
        proof {
            assert forall|q: Address| q != k implies final(self).spec_get(q) == old(
                self,
            ).spec_get(q) by {
                lemma_lookup_push(old(self)@, k, v, q);
            }
            lemma_lookup_push(old(self)@, k, v, k);
        }
    }

    /// Removes and returns the record stored under `k`, if any.
    pub fn remove(&mut self, k: &Address) -> (r: Option<V>)
        requires
            old(self).wf(),
        ensures
            final(self).wf(),
            r == old(self).spec_get(*k),
            final(self).spec_get(*k) is None,
            forall|q: Address| q != *k ==> final(self).spec_get(q) == old(self).spec_get(q),
    {
        match self.index_of(k) {
            Some(i) => {
                proof {
                    lemma_distinct_remove(self@, i as int);
                }
                let v = self.entries.remove(i);
                proof {
                    lemma_lookup_remove(old(self)@, i as int, *k);
                    assert forall|q: Address| q != *k implies final(self).spec_get(q) == old(
                        self,
                    ).spec_get(q) by {
                        lemma_lookup_remove(old(self)@, i as int, q);
                    }
                }
                Some(v.1)
            },
            None => None,
        }
    }
}

} // verus!
