//! Maps kept as lists of pairs.
//!
//! A list serves keys that are structs as well as texts and numbers, its entries can be walked
//! in turn and changed in place, and what it holds is known from the equality of keys alone.
//! vstd's map by strings takes no other keys, cannot be walked, and changes no value in place.

use vstd::prelude::*;

verus! {

/// What can be a key of an [`AssocMap`]: two keys are the same when they say the same.
pub trait AssocKey: View + Sized {
    /// Whether two keys are the same.
    fn same(&self, other: &Self) -> (r: bool)
        ensures
            r == (self@ == other@),
    ;
}

impl AssocKey for String {
    fn same(&self, other: &Self) -> (r: bool) {
        *self == *other
    }
}

impl AssocKey for u16 {
    fn same(&self, other: &Self) -> (r: bool) {
        *self == *other
    }
}

/// Values by key; no key occurs twice.
pub struct AssocMap<K: AssocKey, V> {
    entries: Vec<(K, V)>,
}

impl<K: AssocKey, V> AssocMap<K, V> {
    /// Whether an entry has the key `k`.
    spec fn has(self, k: K::V) -> bool {
        exists|i: int| 0 <= i < self.entries@.len() && (#[trigger] self.entries@[i]).0@ == k
    }

    /// Where the entry for `k` is.
    spec fn position(self, k: K::V) -> int {
        choose|i: int| 0 <= i < self.entries@.len() && (#[trigger] self.entries@[i]).0@ == k
    }

    /// No key occurs twice.
    pub closed spec fn wf(self) -> bool {
        forall|i: int, j: int|
            0 <= i < j < self.entries@.len() ==> (#[trigger] self.entries@[i]).0@
                != (#[trigger] self.entries@[j]).0@
    }

    proof fn lemma_at(self, i: int)
        requires
            self.wf(),
            0 <= i < self.entries@.len(),
        ensures
            self@.contains_key(self.entries@[i].0@),
            self@[self.entries@[i].0@] == self.entries@[i].1,
    {
        assert(self.has(self.entries@[i].0@));
        let p = self.position(self.entries@[i].0@);
        assert(self.entries@[p].0@ == self.entries@[i].0@);
    }

    /// The empty map.
    pub fn new() -> (m: Self)
        ensures
            m.wf(),
            m@ == Map::<K::V, V>::empty(),
    {
        let m = AssocMap { entries: Vec::new() };
        assert(m@ =~= Map::<K::V, V>::empty());
        m
    }

    /// Where the entry for `key` is, if there is one.
    fn find(&self, key: &K) -> (r: Option<usize>)
        ensures
            match r {
                Some(i) => i < self.entries@.len() && self.entries@[i as int].0@ == key@,
                None => !self@.contains_key(key@),
            },
    {
        let mut i: usize = 0;
        while i < self.entries.len()
            invariant
                i <= self.entries@.len(),
                forall|j: int| 0 <= j < i ==> (#[trigger] self.entries@[j]).0@ != key@,
            decreases self.entries@.len() - i,
        {
            if self.entries[i].0.same(key) {
                return Some(i);
            }
            i += 1;
        }
        None
    }

    /// The value for `key`, if there is one.
    pub fn get(&self, key: &K) -> (r: Option<&V>)
        requires
            self.wf(),
        ensures
            match r {
                Some(v) => self@.contains_key(key@) && *v == self@[key@],
                None => !self@.contains_key(key@),
            },
    {
        match self.find(key) {
            Some(i) => {
                proof {
                    self.lemma_at(i as int);
                }
                Some(&self.entries[i].1)
            },
            None => None,
        }
    }

    /// Whether there is a value for `key`.
    pub fn contains(&self, key: &K) -> (r: bool)
        requires
            self.wf(),
        ensures
            r == self@.contains_key(key@),
    {
        self.get(key).is_some()
    }

    proof fn lemma_replaced(self, i: int, other: Self, v: V)
        requires
            self.wf(),
            0 <= i < self.entries@.len(),
            other.entries@ == self.entries@.update(i, (self.entries@[i].0, v)),
        ensures
            other.wf(),
            other@ == self@.insert(self.entries@[i].0@, v),
    {
        let key = self.entries@[i].0@;
        assert forall|j: int| 0 <= j < other.entries@.len() implies (#[trigger] other.entries@[j]).0
            == self.entries@[j].0 by {}
        assert(other.wf());
        assert forall|k: K::V| other@.contains_key(k) == self@.insert(key, v).contains_key(k) by {
            if other.has(k) {
                let j = other.position(k);
                assert(self.entries@[j].0@ == k);
            }
            if self.has(k) {
                let j = self.position(k);
                assert(other.entries@[j].0@ == k);
            }
            assert(other.entries@[i].0@ == key);
        }
        assert forall|k: K::V| other@.contains_key(k) implies other@[k] == self@.insert(key, v)[k] by {
            let j = other.position(k);
            other.lemma_at(j);
            self.lemma_at(j);
        }
        assert(other@ =~= self@.insert(key, v));
    }

    /// The value for `key`, to be changed in place.
    pub fn get_mut(&mut self, key: &K) -> (r: Option<&mut V>)
        requires
            old(self).wf(),
        ensures
            final(self).wf(),
            match r {
                Some(v) => old(self)@.contains_key(key@) && *v == old(self)@[key@]
                    && final(self)@ == old(self)@.insert(key@, *final(v)),
                None => !old(self)@.contains_key(key@) && final(self)@ == old(self)@,
            },
    {
        match self.find(key) {
            Some(i) => {
                let v = &mut self.entries[i].1;
                proof {
                    old(self).lemma_at(i as int);
                    old(self).lemma_replaced(i as int, *after_borrow(self), *final(v));
                }
                Some(v)
            },
            None => None,
        }
    }

    /// How many entries there are.
    pub closed spec fn size(self) -> nat {
        self.entries@.len()
    }

    /// The key of the entry at `i`.
    pub closed spec fn key_at(self, i: int) -> K::V {
        self.entries@[i].0@
    }

    /// How many entries there are.
    pub fn len(&self) -> (n: usize)
        ensures
            n == self.size(),
    {
        self.entries.len()
    }

    /// The entry at `i`.
    pub fn entry(&self, i: usize) -> (r: (&K, &V))
        requires
            self.wf(),
            i < self.size(),
        ensures
            r.0@ == self.key_at(i as int),
            self@.contains_key(r.0@),
            *r.1 == self@[r.0@],
    {
        proof {
            self.lemma_at(i as int);
        }
        (&self.entries[i].0, &self.entries[i].1)
    }

    /// The keys of the entries are the keys of the map.
    pub proof fn lemma_keys(self)
        requires
            self.wf(),
        ensures
            forall|k: K::V| #[trigger]
                self@.contains_key(k) ==> exists|i: int|
                    0 <= i < self.size() && #[trigger] self.key_at(i) == k,
    {
        assert forall|k: K::V| #[trigger] self@.contains_key(k) implies exists|i: int|
            0 <= i < self.size() && #[trigger] self.key_at(i) == k by {
            let i = self.position(k);
            assert(self.has(k));
            assert(self.key_at(i) == k);
        }
    }

    /// Takes the value for `key` out of the map.
    pub fn remove(&mut self, key: &K) -> (r: Option<V>)
        requires
            old(self).wf(),
        ensures
            final(self).wf(),
            final(self)@ == old(self)@.remove(key@),
            match r {
                Some(v) => old(self)@.contains_key(key@) && v == old(self)@[key@],
                None => !old(self)@.contains_key(key@),
            },
    {
        let ghost before = *self;
        match self.find(key) {
            Some(i) => {
                proof {
                    before.lemma_at(i as int);
                }
                let (_, v) = self.entries.remove(i);
                let ghost after = *self;
                proof {
                    assert(after.entries@ == before.entries@.remove(i as int));
                    assert forall|j: int| 0 <= j < after.entries@.len() implies
                        #[trigger] after.entries@[j] == before.entries@[if j < i { j } else { j + 1 }] by {}
                    assert(after.wf());
                    assert forall|k: K::V| after@.contains_key(k) == before@.remove(key@).contains_key(k) by {
                        if after.has(k) {
                            let j = after.position(k);
                            let o = if j < i { j } else { j + 1 };
                            assert(before.entries@[o].0@ == k);
                            assert(before.entries@[i as int].0@ == key@);
                        }
                        if before.has(k) && k != key@ {
                            let o = before.position(k);
                            let j = if o < i { o } else { o - 1 };
                            assert(after.entries@[j].0@ == k);
                        }
                    }
                    assert forall|k: K::V| after@.contains_key(k) implies after@[k] == before@[k] by {
                        let j = after.position(k);
                        let o = if j < i { j } else { j + 1 };
                        after.lemma_at(j);
                        before.lemma_at(o);
                    }
                    assert(after@ =~= before@.remove(key@));
                }
                Some(v)
            },
            None => {
                assert(self@ =~= before@.remove(key@));
                None
            },
        }
    }

    /// Puts `value` at `key`, in place of any value there.
    pub fn insert(&mut self, key: K, value: V)
        requires
            old(self).wf(),
        ensures
            final(self).wf(),
            final(self)@ == old(self)@.insert(key@, value),
    {
        let ghost before = *self;
        let _ = self.remove(&key);
        let ghost mid = *self;
        self.entries.push((key, value));
        let ghost after = *self;
        proof {
            let n = mid.entries@.len() as int;
            assert(after.entries@ == mid.entries@.push((key, value)));
            assert forall|j: int| 0 <= j < n implies #[trigger] mid.entries@[j] == after.entries@[j]
                && mid.entries@[j].0@ != key@ by {
                mid.lemma_at(j);
            }
            assert(after.wf());
            assert forall|k: K::V| after@.contains_key(k) == before@.insert(key@, value).contains_key(k) by {
                if after.has(k) && k != key@ {
                    let j = after.position(k);
                    assert(mid.entries@[j].0@ == k);
                    assert(mid@.contains_key(k));
                }
                if mid.has(k) {
                    let j = mid.position(k);
                    assert(after.entries@[j].0@ == k);
                }
                assert(after.entries@[n].0@ == key@);
                if before@.contains_key(k) && k != key@ {
                    assert(mid@.contains_key(k));
                }
            }
            assert forall|k: K::V| after@.contains_key(k) implies after@[k] == before@.insert(key@, value)[k] by {
                let j = after.position(k);
                after.lemma_at(j);
                if j < n {
                    mid.lemma_at(j);
                }
            }
            assert(after@ =~= before@.insert(key@, value));
        }
    }
}

impl<K: AssocKey, V> View for AssocMap<K, V> {
    type V = Map<K::V, V>;

    closed spec fn view(&self) -> Map<K::V, V> {
        Map::new(|k: K::V| self.has(k), |k: K::V| self.entries@[self.position(k)].1)
    }
}

} // verus!
