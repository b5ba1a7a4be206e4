use vstd::prelude::*;

verus! {

/// A key that can be compared for equality in executable code.
pub trait TableKey: Copy {
    fn same(&self, other: &Self) -> (r: bool)
        ensures
            r == (*self == *other),
    ;
}

/// The value at `k` in `m`, if any.
pub open spec fn entry_of<K, V>(m: Map<K, V>, k: K) -> Option<V> {
    if m.contains_key(k) {
        Some(m[k])
    } else {
        None
    }
}

/// A finite map held as a vector of pairs with pairwise distinct keys.
#[verifier::reject_recursive_types(K)]
pub struct KeyedTable<K: TableKey, V: Copy> {
    entries: Vec<(K, V)>,
    model: Ghost<Map<K, V>>,
}

impl<K: TableKey, V: Copy> View for KeyedTable<K, V> {
    type V = Map<K, V>;

    closed spec fn view(&self) -> Map<K, V> {
        self.model@
    }
}

impl<K: TableKey, V: Copy> KeyedTable<K, V> {
    pub closed spec fn wf(&self) -> bool {
        &&& forall|i: int, j: int|
            0 <= i < j < self.entries@.len() ==> self.entries@[i].0 != self.entries@[j].0
        &&& forall|i: int|
            #![trigger self.entries@[i]]
            0 <= i < self.entries@.len() ==> self.model@.contains_key(self.entries@[i].0)
                && self.model@[self.entries@[i].0] == self.entries@[i].1
        &&& forall|k: K| #[trigger]
            self.model@.contains_key(k) ==> exists|i: int|
                0 <= i < self.entries@.len() && self.entries@[i].0 == k
    }

    pub fn new() -> (t: Self)
        ensures
            t.wf(),
            t@ == Map::<K, V>::empty(),
    {
        KeyedTable { entries: Vec::new(), model: Ghost(Map::empty()) }
    }

    pub fn len(&self) -> (r: usize)
        requires
            self.wf(),
        ensures
            r == self@.len(),
    {
        proof {
            self.lemma_len();
        }
        self.entries.len()
    }

    proof fn lemma_len(&self)
        requires
            self.wf(),
        ensures
            self@.dom().finite(),
            self@.len() == self.entries@.len(),
    {
        let keys = self.entries@.map_values(|e: (K, V)| e.0);
        assert(keys.no_duplicates());
        assert(self@.dom() =~= keys.to_set()) by {
            assert forall|k: K| self@.dom().contains(k) implies keys.to_set().contains(k) by {
                let i = choose|i: int| 0 <= i < self.entries@.len() && self.entries@[i].0 == k;
                assert(keys[i] == k);
            }
            assert forall|k: K| keys.to_set().contains(k) implies self@.dom().contains(k) by {
                let i = choose|i: int| 0 <= i < keys.len() && keys[i] == k;
                assert(self.entries@[i].0 == k);
            }
        }
        keys.unique_seq_to_set();
    }

    /// Position of `k` among the entries.
    fn index_of(&self, k: &K) -> (r: Option<usize>)
        requires
            self.wf(),
        ensures
            match r {
                Some(i) => i < self.entries@.len() && self.entries@[i as int].0 == *k,
                None => !self@.contains_key(*k),
            },
    {
        let mut i: usize = 0;
        while i < self.entries.len()
            invariant
                i <= self.entries@.len(),
                forall|j: int| 0 <= j < i ==> self.entries@[j].0 != *k,
            decreases self.entries@.len() - i,
        {
            if self.entries[i].0.same(k) {
                return Some(i);
            }
            i = i + 1;
        }
        None
    }

    /// The value stored at `k`.
    pub fn get(&self, k: &K) -> (r: Option<V>)
        requires
            self.wf(),
        ensures
            r == entry_of(self@, *k),
    {
        match self.index_of(k) {
            Some(i) => Some(self.entries[i].1),
            None => None,
        }
    }

    /// Stores `v` at `k`, replacing what was there.
    pub fn set(&mut self, k: K, v: V)
        requires
            old(self).wf(),
        ensures
            final(self).wf(),
            final(self)@ == old(self)@.insert(k, v),
    {
        match self.index_of(&k) {
            Some(i) => {
                self.entries.set(i, (k, v));
                self.model = Ghost(self.model@.insert(k, v));
                assert forall|j: int| #![trigger self.entries@[j]]
                    0 <= j < self.entries@.len() implies self.model@.contains_key(
                    self.entries@[j].0) && self.model@[self.entries@[j].0]
                    == self.entries@[j].1 by {
                    if j != i {
                        assert(old(self).entries@[j] == self.entries@[j]);
                    }
                }
                assert forall|kk: K| #[trigger] self.model@.contains_key(kk) implies exists|j: int|
                    0 <= j < self.entries@.len() && self.entries@[j].0 == kk by {
                    if kk != k {
                        let j = choose|j: int|
                            0 <= j < old(self).entries@.len() && old(self).entries@[j].0 == kk;
                        assert(self.entries@[j].0 == kk);
                    } else {
                        assert(self.entries@[i as int].0 == kk);
                    }
                }
            },
            None => {
                self.entries.push((k, v));
                self.model = Ghost(self.model@.insert(k, v));
                let ghost n: int = self.entries@.len() - 1;
                assert forall|j: int| #![trigger self.entries@[j]]
                    0 <= j < self.entries@.len() implies self.model@.contains_key(
                    self.entries@[j].0) && self.model@[self.entries@[j].0]
                    == self.entries@[j].1 by {
                    if j != n {
                        assert(old(self).entries@[j] == self.entries@[j]);
                        assert(old(self).model@.contains_key(old(self).entries@[j].0));
                    }
                }
                assert forall|kk: K| #[trigger] self.model@.contains_key(kk) implies exists|j: int|
                    0 <= j < self.entries@.len() && self.entries@[j].0 == kk by {
                    if kk != k {
                        let j = choose|j: int|
                            0 <= j < old(self).entries@.len() && old(self).entries@[j].0 == kk;
                        assert(self.entries@[j].0 == kk);
                    } else {
                        assert(self.entries@[n].0 == kk);
                    }
                }
                assert forall|a: int, b: int| 0 <= a < b < self.entries@.len() implies
                    self.entries@[a].0 != self.entries@[b].0 by {
                    if b == n {
                        assert(old(self).model@.contains_key(old(self).entries@[a].0));
                    } else {
                        assert(old(self).entries@[a] == self.entries@[a]);
                        assert(old(self).entries@[b] == self.entries@[b]);
                    }
                }
            },
        }
    }
}

} // verus!
