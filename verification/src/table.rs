use vstd::prelude::*;

use crate::types::Address;

verus! {

/// A key of a [`Table`]: a value that can be told apart from another at run
/// time.
pub(crate) trait Key: Sized {
    /// Whether the two keys are equal.
    fn same(&self, other: &Self) -> (r: bool)
        ensures
            r == (*self == *other),
    ;
}

impl Key for u64 {
    fn same(&self, other: &Self) -> (r: bool) {
        *self == *other
    }
}

impl Key for Address {
    fn same(&self, other: &Self) -> (r: bool) {
        *self == *other
    }
}

/// Keyed records held in memory: each key has at most one value, and writing
/// under a key replaces what was there.
pub(crate) struct Table<K, V> {
    keys: Vec<K>,
    values: Vec<V>,
}

impl<K, V> Table<K, V> {
    #[verifier::type_invariant]
    spec fn inv(self) -> bool {
        &&& self.keys.len() == self.values.len()
        &&& forall|i: int, j: int|
            0 <= i < j < self.keys.len() ==> self.keys[i] != self.keys[j]
    }

    /// Whether `k` stands at some position of the key column.
    spec fn holds(self, k: K) -> bool {
        exists|i: int| 0 <= i < self.keys.len() && self.keys[i] == k
    }

    /// A position at which `k` stands.
    spec fn position(self, k: K) -> int {
        choose|i: int| 0 <= i < self.keys.len() && self.keys[i] == k
    }

    /// The records as a map from key to value.
    pub(crate) closed spec fn view(self) -> Map<K, V> {
        Map::new(|k: K| self.holds(k), |k: K| self.values[self.position(k)])
    }
}

impl<K: Key, V> Table<K, V> {
    /// A table without records.
    pub(crate) fn new() -> (t: Self)
        ensures
            t@ == Map::<K, V>::empty(),
    {
        let t = Table { keys: Vec::new(), values: Vec::new() };
        assert(t@ =~= Map::<K, V>::empty());
        t
    }

    /// The position of `k` in the key column, if it is there.
    fn find(&self, k: &K) -> (r: Option<usize>)
        ensures
            match r {
                Some(i) => i < self.keys.len() && self.keys[i as int] == *k,
                None => !self.holds(*k),
            },
    {
        let mut i: usize = 0;
        while i < self.keys.len()
            invariant
                i <= self.keys.len(),
                forall|j: int| 0 <= j < i ==> self.keys[j] != *k,
            decreases self.keys.len() - i,
        {
            if self.keys[i].same(k) {
                return Some(i);
            }
            i += 1;
        }
        None
    }

    /// Whether a value is recorded under `k`.
    pub(crate) fn contains_key(&self, k: &K) -> (r: bool)
        ensures
            r == self@.contains_key(*k),
    {
        self.find(k).is_some()
    }

    /// The value recorded under `k`.
    pub(crate) fn get(&self, k: &K) -> (r: Option<&V>)
        ensures
            r == (if self@.contains_key(*k) {
                Some(&self@[*k])
            } else {
                None
            }),
    {
        proof {
            use_type_invariant(self);
        }
        match self.find(k) {
            Some(i) => {
                assert(self.holds(*k));
                assert(self.position(*k) == i);
                Some(&self.values[i])
            },
            None => None,
        }
    }

    /// Records `v` under `k`, in place of what was recorded there.
    pub(crate) fn insert(&mut self, k: K, v: V)
        ensures
            final(self)@ == old(self)@.insert(k, v),
    {
        proof {
            use_type_invariant(&*self);
        }
        let found = self.find(&k);
        let mut taken = Table { keys: Vec::new(), values: Vec::new() };
        core::mem::swap(self, &mut taken);
        let Table { mut keys, mut values } = taken;
        match found {
            Some(i) => {
                values.set(i, v);
            },
            None => {
                keys.push(k);
                values.push(v);
            },
        }
        *self = Table { keys, values };
        proof {
            let n = old(self).keys.len() as int;
            assert forall|q: K| self.holds(q) == (q == k || old(self).holds(q)) by {
                if old(self).holds(q) {
                    assert(self.keys[old(self).position(q)] == q);
                }
                if found is Some {
                    assert(self.keys[found->0 as int] == k);
                } else {
                    assert(self.keys[n] == k);
                }
                if self.holds(q) && q != k {
                    assert(old(self).keys[self.position(q)] == q);
                }
            }
            assert forall|q: K| self.holds(q) implies self.values[self.position(q)] == (if q == k {
                v
            } else {
                old(self).values[old(self).position(q)]
            }) by {
                let j = self.position(q);
                if q != k {
                    assert(old(self).keys[j] == q);
                    assert(old(self).position(q) == j);
                }
            }
            assert(self@ =~= old(self)@.insert(k, v));
        }
    }
}

} // verus!
