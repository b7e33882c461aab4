//! A map from byte strings to values that keeps its entries in the order
//! in which their keys were first inserted.

use crate::bytes::bytes_eq;
use vstd::prelude::*;

verus! {

/// Map keyed by byte strings. No key occurs twice (`wf`).
pub struct ByteMap<V> {
    keys: Vec<Vec<u8>>,
    values: Vec<V>,
}

/// True if no two places of `keys` hold the same key.
pub open spec fn distinct_keys(keys: Seq<Seq<u8>>) -> bool {
    forall|i: int, j: int| 0 <= i < j < keys.len() ==> keys[i] != keys[j]
}

/// The map that sends each key of `keys` to the value at the same place of
/// `values`.
pub open spec fn map_of<V>(keys: Seq<Seq<u8>>, values: Seq<V>) -> Map<Seq<u8>, V> {
    Map::new(
        |k: Seq<u8>| keys.contains(k),
        |k: Seq<u8>| values[keys.index_of(k)],
    )
}

impl<V> View for ByteMap<V> {
    type V = Map<Seq<u8>, V>;

    open spec fn view(&self) -> Map<Seq<u8>, V> {
        map_of(self.keys(), self.values())
    }
}

impl<V> ByteMap<V> {
    /// What holds of every map: each key has its value, and no key occurs
    /// twice.
    pub closed spec fn wf(&self) -> bool {
        &&& self.keys.len() == self.values.len()
        &&& distinct_keys(self.keys())
    }

    /// The keys of the map, in the order of their first insertion.
    pub closed spec fn keys(&self) -> Seq<Seq<u8>> {
        Seq::new(self.keys@.len(), |i: int| self.keys@[i]@)
    }

    /// The values of the map, each at the place of its key.
    pub closed spec fn values(&self) -> Seq<V> {
        self.values@
    }

    /// An empty map.
    pub fn new() -> (map: ByteMap<V>)
        ensures
            map.wf(),
            map.keys() == Seq::<Seq<u8>>::empty(),
            map.values() == Seq::<V>::empty(),
            map@ == Map::<Seq<u8>, V>::empty(),
    {
        let map = ByteMap { keys: Vec::new(), values: Vec::new() };
        assert(map.keys() =~= Seq::<Seq<u8>>::empty());
        assert(map@ =~= Map::<Seq<u8>, V>::empty());
        map
    }

    /// Number of entries.
    pub fn len(&self) -> (n: usize)
        requires
            self.wf(),
        ensures
            n == self.keys().len(),
            n == self.values().len(),
            distinct_keys(self.keys()),
    {
        self.keys.len()
    }

    /// True if the map holds no entry.
    pub fn is_empty(&self) -> (empty: bool)
        requires
            self.wf(),
        ensures
            empty == (self.keys().len() == 0),
            empty == (self@ == Map::<Seq<u8>, V>::empty()),
    {
        proof {
            if self.keys().len() == 0 {
                assert(self@ =~= Map::<Seq<u8>, V>::empty());
            } else {
                assert(self.keys().contains(self.keys()[0]));
                assert(self@.contains_key(self.keys()[0]));
            }
        }
        self.keys.len() == 0
    }

    /// The key at place `i`.
    pub fn key_at(&self, i: usize) -> (key: &Vec<u8>)
        requires
            self.wf(),
            i < self.keys().len(),
        ensures
            key@ == self.keys()[i as int],
    {
        &self.keys[i]
    }

    /// The value at place `i`.
    pub fn value_at(&self, i: usize) -> (value: &V)
        requires
            self.wf(),
            i < self.values().len(),
        ensures
            *value == self.values()[i as int],
    {
        &self.values[i]
    }

    /// Place of `key` among the keys.
    fn find(&self, key: &[u8]) -> (place: Option<usize>)
        requires
            self.wf(),
        ensures
            self.keys().len() == self.values().len(),
            distinct_keys(self.keys()),
            match place {
                Some(i) => i < self.keys().len() && self.keys()[i as int] == key@
                    && self.keys().index_of(key@) == i,
                None => !self.keys().contains(key@),
            },
    {
        let mut i: usize = 0;
        while i < self.keys.len()
            invariant
                self.wf(),
                i <= self.keys.len(),
                self.keys().len() == self.keys.len(),
                forall|j: int| 0 <= j < i ==> self.keys()[j] != key@,
            decreases self.keys.len() - i,
        {
            if bytes_eq(self.keys[i].as_slice(), key) {
                proof {
                    let k = self.keys().index_of(key@);
                    assert(self.keys()[i as int] == key@);
                    assert(self.keys().contains(key@));
                    assert(self.keys()[k] == key@);
                    assert(k == i);
                }
                return Some(i);
            }
            i = i + 1;
        }
        None
    }

    /// True if the map holds `key`.
    pub fn contains_key(&self, key: &[u8]) -> (found: bool)
        requires
            self.wf(),
        ensures
            found == self@.contains_key(key@),
    {
        self.find(key).is_some()
    }

    /// The value of `key`, if the map holds one.
    pub fn get(&self, key: &[u8]) -> (value: Option<&V>)
        requires
            self.wf(),
        ensures
            match value {
                Some(v) => self@.contains_key(key@) && *v == self@[key@],
                None => !self@.contains_key(key@),
            },
    {
        match self.find(key) {
            Some(i) => Some(&self.values[i]),
            None => None,
        }
    }

    /// Gives `key` the value `value` and returns the value that it had.
    /// A new key goes behind all others; a key that is there keeps its
    /// place.
    pub fn insert(&mut self, key: Vec<u8>, value: V) -> (previous: Option<V>)
        requires
            old(self).wf(),
        ensures
            final(self).wf(),
            final(self)@ == old(self)@.insert(key@, value),
            match previous {
                Some(v) => {
                    &&& old(self)@.contains_key(key@)
                    &&& v == old(self)@[key@]
                    &&& final(self).keys() == old(self).keys()
                    &&& final(self).values() == old(self).values().update(
                        old(self).keys().index_of(key@),
                        value,
                    )
                },
                None => {
                    &&& !old(self)@.contains_key(key@)
                    &&& final(self).keys() == old(self).keys().push(key@)
                    &&& final(self).values() == old(self).values().push(value)
                },
            },
    {
        let ghost before = *self;
        match self.find(key.as_slice()) {
            Some(i) => {
                let mut value = value;
                core::mem::swap(&mut self.values[i], &mut value);
                proof {
                    assert(self.keys() =~= before.keys());
                    assert(self@ =~= before@.insert(key@, self.values()[i as int]));
                }
                Some(value)
            },
            None => {
                self.keys.push(key);
                self.values.push(value);
                proof {
                    assert(self.keys() =~= before.keys().push(key@));
                    assert forall|k: Seq<u8>| #[trigger]
                        self.keys().contains(k) <==> (k == key@ || before.keys().contains(
                            k,
                        )) by {
                        if before.keys().contains(k) {
                            let j = before.keys().index_of(k);
                            assert(self.keys()[j] == k);
                        }
                        if k == key@ {
                            assert(self.keys()[before.keys().len() as int] == k);
                        }
                    }
                    assert forall|k: Seq<u8>|
                        before.keys().contains(k) implies self.keys().index_of(k)
                        == before.keys().index_of(k) by {
                        let j = before.keys().index_of(k);
                        let j2 = self.keys().index_of(k);
                        assert(self.keys()[j] == k);
                        assert(self.keys().contains(k));
                        assert(self.keys()[j2] == k);
                    }
                    assert(self.keys().index_of(key@) == before.keys().len()) by {
                        assert(self.keys()[before.keys().len() as int] == key@);
                        let j2 = self.keys().index_of(key@);
                        assert(self.keys()[j2] == key@);
                    }
                    assert(self@ =~= before@.insert(key@, value));
                }
                None
            },
        }
    }

    /// Removes `key` and returns the value that it had. The other entries
    /// keep their order.
    pub fn remove(&mut self, key: &[u8]) -> (previous: Option<V>)
        requires
            old(self).wf(),
        ensures
            final(self).wf(),
            final(self)@ == old(self)@.remove(key@),
            match previous {
                Some(v) => {
                    &&& old(self)@.contains_key(key@)
                    &&& v == old(self)@[key@]
                    &&& final(self).keys() == old(self).keys().remove(
                        old(self).keys().index_of(key@),
                    )
                    &&& final(self).values() == old(self).values().remove(
                        old(self).keys().index_of(key@),
                    )
                },
                None => {
                    &&& !old(self)@.contains_key(key@)
                    &&& final(self).keys() == old(self).keys()
                    &&& final(self).values() == old(self).values()
                },
            },
    {
        let ghost before = *self;
        match self.find(key) {
            Some(i) => {
                self.keys.remove(i);
                let value = self.values.remove(i);
                proof {
                    assert(self.keys() =~= before.keys().remove(i as int));
                    assert forall|k: Seq<u8>| #[trigger]
                        self.keys().contains(k) <==> (k != key@ && before.keys().contains(
                            k,
                        )) by {
                        if self.keys().contains(k) {
                            let j = self.keys().index_of(k);
                            assert(self.keys()[j] == k);
                            if j < i {
                                assert(before.keys()[j] == k);
                            } else {
                                assert(before.keys()[j + 1] == k);
                            }
                        }
                        if k != key@ && before.keys().contains(k) {
                            let j = before.keys().index_of(k);
                            assert(before.keys()[j] == k);
                            if j < i {
                                assert(self.keys()[j] == k);
                            } else {
                                assert(self.keys()[j - 1] == k);
                            }
                        }
                    }
                    assert forall|k: Seq<u8>|
                        self.keys().contains(k) implies self.values()[self.keys().index_of(k)]
                        == before.values()[before.keys().index_of(k)] by {
                        let j = self.keys().index_of(k);
                        let j0 = before.keys().index_of(k);
                        assert(self.keys()[j] == k);
                        assert(before.keys().contains(k));
                        assert(before.keys()[j0] == k);
                        if j < i {
                            assert(before.keys()[j] == k);
                            assert(j0 == j);
                        } else {
                            assert(before.keys()[j + 1] == k);
                            assert(j0 == j + 1);
                        }
                    }
                    assert(self@ =~= before@.remove(key@));
                }
                Some(value)
            },
            None => {
                proof {
                    assert(self@ =~= before@.remove(key@));
                }
                None
            },
        }
    }
}

} // verus!
