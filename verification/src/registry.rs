//! An association list from `u64` keys to values: the in-memory stand-in for
//! the persisted key-value registries that hold accounts, validators,
//! investors and withdrawal tickets.
//!
//! Contracts speak of the abstract `Map` view; the entry sequence is also
//! exposed so that callers can reason about sums over the stored values.

use vstd::prelude::*;

verus! {

/// An association list from `u64` keys to values with no key repeated.
pub struct Registry<T> {
    items: Vec<(u64, T)>,
}

/// The map described by an association sequence; later entries win.
pub open spec fn assoc_map<T>(s: Seq<(u64, T)>) -> Map<u64, T>
    decreases s.len(),
{
    if s.len() == 0 {
        Map::empty()
    } else {
        assoc_map(s.drop_last()).insert(s.last().0, s.last().1)
    }
}

/// No key occurs twice in the association sequence.
pub open spec fn unique_keys<T>(s: Seq<(u64, T)>) -> bool {
    forall|i: int, j: int|
        0 <= i < j < s.len() ==> (#[trigger] s[i]).0 != (#[trigger] s[j]).0
}

/// A key is in the map exactly when some entry carries it.
pub proof fn lemma_assoc_map_domain<T>(s: Seq<(u64, T)>, k: u64)
    ensures
        assoc_map(s).contains_key(k) <==> exists|i: int| 0 <= i < s.len() && (#[trigger] s[i]).0 == k,
    decreases s.len(),
{
    if s.len() > 0 {
        lemma_assoc_map_domain(s.drop_last(), k);
        if s.last().0 == k {
            assert((s[s.len() - 1]).0 == k);
        } else {
            if assoc_map(s).contains_key(k) {
                let i = choose|i: int| 0 <= i < s.drop_last().len() && (#[trigger] s.drop_last()[i]).0 == k;
                assert((s[i]).0 == k);
            }
            if exists|i: int| 0 <= i < s.len() && (#[trigger] s[i]).0 == k {
                let i = choose|i: int| 0 <= i < s.len() && (#[trigger] s[i]).0 == k;
                assert(i < s.len() - 1);
                assert((s.drop_last()[i]).0 == k);
            }
        }
    }
}

/// With unique keys, the entry at `i` gives the mapped value of its key.
pub proof fn lemma_assoc_map_index<T>(s: Seq<(u64, T)>, i: int)
    requires
        unique_keys(s),
        0 <= i < s.len(),
    ensures
        assoc_map(s).contains_key((s[i]).0),
        assoc_map(s)[(s[i]).0] == (s[i]).1,
    decreases s.len(),
{
    if i == s.len() - 1 {
    } else {
        assert((s.drop_last()[i]) == s[i]);
        lemma_assoc_map_index(s.drop_last(), i);
        assert((s[s.len() - 1]).0 != (s[i]).0);
    }
}

/// Replacing the value at an existing entry is a map insert on its key.
pub proof fn lemma_assoc_map_update<T>(s: Seq<(u64, T)>, i: int, v: T)
    requires
        unique_keys(s),
        0 <= i < s.len(),
    ensures
        assoc_map(s.update(i, ((s[i]).0, v))) == assoc_map(s).insert((s[i]).0, v),
        unique_keys(s.update(i, ((s[i]).0, v))),
    decreases s.len(),
{
    let k = (s[i]).0;
    let s2 = s.update(i, (k, v));
    assert(unique_keys(s2)) by {
        assert(forall|a: int, b: int|
            0 <= a < b < s2.len() ==> (#[trigger] s2[a]).0 != (#[trigger] s2[b]).0) by {
            assert(forall|a: int| 0 <= a < s.len() ==> (#[trigger] s2[a]).0 == (s[a]).0);
        }
    }
    if i == s.len() - 1 {
        assert(s2.drop_last() =~= s.drop_last());
        assert(assoc_map(s2) == assoc_map(s.drop_last()).insert(k, v));
        assert(assoc_map(s.drop_last()).insert(k, (s[i]).1).insert(k, v) =~= assoc_map(
            s.drop_last(),
        ).insert(k, v));
    } else {
        assert(s2.drop_last() =~= s.drop_last().update(i, (k, v)));
        assert((s.drop_last()[i]) == s[i]);
        lemma_assoc_map_update(s.drop_last(), i, v);
        let last = s[s.len() - 1];
        assert(last.0 != k);
        assert(s2.last() == last);
        assert(assoc_map(s2) == assoc_map(s.drop_last()).insert(k, v).insert(last.0, last.1));
        assert(assoc_map(s.drop_last()).insert(k, v).insert(last.0, last.1) =~= assoc_map(
            s.drop_last(),
        ).insert(last.0, last.1).insert(k, v));
    }
}

/// Removing an entry is a map remove on its key.
pub proof fn lemma_assoc_map_remove<T>(s: Seq<(u64, T)>, i: int)
    requires
        unique_keys(s),
        0 <= i < s.len(),
    ensures
        assoc_map(s.remove(i)) == assoc_map(s).remove((s[i]).0),
        unique_keys(s.remove(i)),
    decreases s.len(),
{
    let k = (s[i]).0;
    let s2 = s.remove(i);
    assert(unique_keys(s2)) by {
        assert(forall|a: int, b: int|
            0 <= a < b < s2.len() ==> (#[trigger] s2[a]).0 != (#[trigger] s2[b]).0) by {
            assert(forall|a: int|
                0 <= a < s2.len() ==> s2[a] == (if a < i {
                    s[a]
                } else {
                    s[a + 1]
                }));
        }
    }
    if i == s.len() - 1 {
        assert(s2 =~= s.drop_last());
        assert(!assoc_map(s.drop_last()).contains_key(k)) by {
            lemma_assoc_map_domain(s.drop_last(), k);
            assert(forall|j: int|
                0 <= j < s.drop_last().len() ==> (#[trigger] s.drop_last()[j]).0 != k);
        }
        assert(assoc_map(s.drop_last()).insert(k, (s[i]).1).remove(k) =~= assoc_map(
            s.drop_last(),
        ));
    } else {
        assert(s2.drop_last() =~= s.drop_last().remove(i));
        assert((s.drop_last()[i]) == s[i]);
        lemma_assoc_map_remove(s.drop_last(), i);
        let last = s[s.len() - 1];
        assert(last.0 != k);
        assert(s2.last() == last);
        assert(assoc_map(s2) == assoc_map(s.drop_last()).remove(k).insert(last.0, last.1));
        assert(assoc_map(s.drop_last()).remove(k).insert(last.0, last.1) =~= assoc_map(
            s.drop_last(),
        ).insert(last.0, last.1).remove(k));
    }
}

/// Appending a fresh entry is a map insert on its key.
pub proof fn lemma_assoc_map_push<T>(s: Seq<(u64, T)>, k: u64, v: T)
    ensures
        assoc_map(s.push((k, v))) == assoc_map(s).insert(k, v),
{
    assert(s.push((k, v)).drop_last() =~= s);
    assert(s.push((k, v)).last() == (k, v));
}

impl<T> View for Registry<T> {
    type V = Map<u64, T>;

    closed spec fn view(&self) -> Map<u64, T> {
        assoc_map(self.items@)
    }
}

/// The map view is exactly the association map of the entries.
pub proof fn lemma_view_entries<T>(r: &Registry<T>)
    ensures
        r@ == assoc_map(r.entries()),
{
}

impl<T> Registry<T> {
    /// The stored entries, in insertion order.
    pub closed spec fn entries(self) -> Seq<(u64, T)> {
        self.items@
    }

    /// Key uniqueness, the registry's structural invariant.
    pub open spec fn wf(self) -> bool {
        unique_keys(self.entries())
    }

    pub fn new() -> (r: Self)
        ensures
            r.wf(),
            r@ == Map::<u64, T>::empty(),
            r.entries() == Seq::<(u64, T)>::empty(),
    {
        Registry { items: Vec::new() }
    }

    pub fn len(&self) -> (n: usize)
        ensures
            n == self.entries().len(),
    {
        self.items.len()
    }

    /// The entry at a position, for walking the registry.
    pub fn entry_at(&self, i: usize) -> (e: &(u64, T))
        requires
            i < self.entries().len(),
        ensures
            *e == self.entries()[i as int],
    {
        &self.items[i]
    }

    fn index_of(&self, k: u64) -> (r: Option<usize>)
        ensures
            match r {
                Some(i) => i < self.entries().len() && (self.entries()[i as int]).0 == k,
                None => forall|j: int|
                    0 <= j < self.entries().len() ==> (#[trigger] self.entries()[j]).0 != k,
            },
    {
        let n = self.items.len();
        let mut i: usize = 0;
        while i < n
            invariant
                i <= n,
                n == self.items@.len(),
                forall|j: int| 0 <= j < i ==> (#[trigger] self.items@[j]).0 != k,
            decreases n - i,
        {
            if self.items[i].0 == k {
                return Some(i);
            }
            i = i + 1;
        }
        None
    }

    pub fn contains_key(&self, k: u64) -> (b: bool)
        requires
            self.wf(),
        ensures
            b == self@.contains_key(k),
    {
        proof {
            lemma_assoc_map_domain(self.entries(), k);
        }
        match self.index_of(k) {
            Some(_) => true,
            None => false,
        }
    }

    pub fn get(&self, k: u64) -> (r: Option<&T>)
        requires
            self.wf(),
        ensures
            match r {
                Some(v) => self@.contains_key(k) && *v == self@[k],
                None => !self@.contains_key(k),
            },
    {
        proof {
            lemma_assoc_map_domain(self.entries(), k);
        }
        match self.index_of(k) {
            Some(i) => {
                proof {
                    lemma_assoc_map_index(self.entries(), i as int);
                }
                Some(&self.items[i].1)
            },
            None => None,
        }
    }

    /// Stores `value` under `k`, handing back what the key held before.
    pub fn insert(&mut self, k: u64, value: T) -> (prev: Option<T>)
        requires
            old(self).wf(),
        ensures
            final(self).wf(),
            final(self)@ == old(self)@.insert(k, value),
            match prev {
                Some(p) => old(self)@.contains_key(k) && p == old(self)@[k] && exists|i: int|
                    0 <= i < old(self).entries().len() && (#[trigger] old(self).entries()[i]) == (
                    k,
                    p,
                    ) && final(self).entries() == old(self).entries().update(i, (k, value)),
                None => !old(self)@.contains_key(k) && final(self).entries() == old(
                    self,
                ).entries().push((k, value)),
            },
    {
        proof {
            lemma_assoc_map_domain(self.entries(), k);
        }
        match self.index_of(k) {
            Some(i) => {
                proof {
                    lemma_assoc_map_index(self.entries(), i as int);
                    lemma_assoc_map_update(self.entries(), i as int, value);
                }
                let old_pair = self.items.remove(i);
                self.items.insert(i, (k, value));
                proof {
                    assert(self.items@ =~= old(self).items@.update(i as int, (k, value)));
                }
                Some(old_pair.1)
            },
            None => {
                proof {
                    lemma_assoc_map_push(self.entries(), k, value);
                }
                self.items.push((k, value));
                None
            },
        }
    }

    /// Removes the entry under `k`, handing back what it held.
    pub fn remove(&mut self, k: u64) -> (prev: Option<T>)
        requires
            old(self).wf(),
        ensures
            final(self).wf(),
            final(self)@ == old(self)@.remove(k),
            match prev {
                Some(p) => old(self)@.contains_key(k) && p == old(self)@[k] && exists|i: int|
                    0 <= i < old(self).entries().len() && (#[trigger] old(self).entries()[i]) == (
                    k,
                    p,
                    ) && final(self).entries() == old(self).entries().remove(i),
                None => !old(self)@.contains_key(k) && *final(self) == *old(self),
            },
    {
        proof {
            lemma_assoc_map_domain(self.entries(), k);
        }
        match self.index_of(k) {
            Some(i) => {
                proof {
                    lemma_assoc_map_index(self.entries(), i as int);
                    lemma_assoc_map_remove(self.entries(), i as int);
                }
                let old_pair = self.items.remove(i);
                Some(old_pair.1)
            },
            None => {
                proof {
                    assert(self@ =~= self@.remove(k));
                }
                None
            },
        }
    }
}

} // verus!
