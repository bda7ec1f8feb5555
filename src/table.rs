//! A small string-keyed table that keeps its keys in insertion order.
use vstd::prelude::*;

verus! {

/// Values of type `V` under distinct string keys.
pub struct StrTable<V> {
    entries: Vec<(String, V)>,
}

impl<V: View> StrTable<V> {
    /// The keys, in insertion order.
    pub closed spec fn keys(&self) -> Seq<Seq<char>> {
        Seq::new(self.entries@.len(), |i: int| self.entries@[i].0@)
    }

    /// The value stored under the `i`-th key.
    pub closed spec fn value_at(&self, i: int) -> V::V {
        self.entries@[i].1@
    }

    /// No key occurs twice.
    pub open spec fn wf(&self) -> bool {
        self.keys().no_duplicates()
    }

    /// The table as a map from keys to values.
    pub open spec fn map(&self) -> Map<Seq<char>, V::V> {
        Map::new(
            |k: Seq<char>| self.keys().contains(k),
            |k: Seq<char>| self.value_at(self.keys().index_of(k)),
        )
    }

    /// The `i`-th key is found at `i`, and the map holds its value there.
    pub proof fn lemma_index(&self, i: int)
        requires
            self.wf(),
            0 <= i < self.keys().len(),
        ensures
            self.keys().index_of(self.keys()[i]) == i,
            self.map().contains_key(self.keys()[i]),
            self.map()[self.keys()[i]] == self.value_at(i),
    {
        assert(self.keys().contains(self.keys()[i]));
        let j = self.keys().index_of(self.keys()[i]);
        assert(self.keys()[j] == self.keys()[i]);
    }

    /// A map with the table's keys and, under each, the table's value is the
    /// table's map.
    pub proof fn lemma_map_from_index(&self, m: Map<Seq<char>, V::V>)
        requires
            self.wf(),
            forall|k: Seq<char>| m.contains_key(k) <==> self.keys().contains(k),
            forall|i: int| 0 <= i < self.keys().len() ==> m[#[trigger] self.keys()[i]] == self.value_at(i),
        ensures
            self.map() == m,
    {
        assert forall|k: Seq<char>| #[trigger] self.map().contains_key(k) implies self.map()[k] == m[k] by {
            let j = self.keys().index_of(k);
            self.lemma_index(j);
        }
        assert(self.map() =~= m);
    }

    /// An empty table.
    pub fn new() -> (r: Self)
        ensures
            r.wf(),
            r.keys() == Seq::<Seq<char>>::empty(),
            r.map() == Map::<Seq<char>, V::V>::empty(),
    {
        let r = StrTable { entries: Vec::new() };
        assert(r.keys() =~= Seq::<Seq<char>>::empty());
        assert(r.map() =~= Map::<Seq<char>, V::V>::empty());
        r
    }

    /// The number of keys.
    pub fn len(&self) -> (r: usize)
        ensures
            r == self.keys().len(),
    {
        self.entries.len()
    }

    /// The `i`-th key.
    pub fn key_at(&self, i: usize) -> (r: &String)
        requires
            i < self.keys().len(),
        ensures
            r@ == self.keys()[i as int],
    {
        &self.entries[i].0
    }

    /// Where `k` stands among the keys, if it does.
    pub fn position(&self, k: &String) -> (r: Option<usize>)
        requires
            self.wf(),
        ensures
            match r {
                Some(i) => i < self.keys().len() && self.keys()[i as int] == k@,
                None => !self.map().contains_key(k@),
            },
    {
        let mut i: usize = 0;
        while i < self.entries.len()
            invariant
                i <= self.keys().len(),
                forall|j: int| 0 <= j < i ==> self.keys()[j] != k@,
            decreases self.keys().len() - i,
        {
            if self.entries[i].0 == *k {
                return Some(i);
            }
            i = i + 1;
        }
        None
    }

    /// The value under `k`, if any.
    pub fn get(&self, k: &String) -> (r: Option<&V>)
        requires
            self.wf(),
        ensures
            match r {
                Some(v) => self.map().contains_key(k@) && v@ == self.map()[k@],
                None => !self.map().contains_key(k@),
            },
    {
        match self.position(k) {
            Some(i) => {
                proof {
                    self.lemma_index(i as int);
                }
                Some(&self.entries[i].1)
            },
            None => None,
        }
    }

    /// Adds `k`, which is not yet a key, with value `v` at the end.
    fn push_new(&mut self, k: String, v: V)
        requires
            old(self).wf(),
            !old(self).map().contains_key(k@),
        ensures
            final(self).wf(),
            final(self).keys() == old(self).keys().push(k@),
            final(self).map() == old(self).map().insert(k@, v@),
    {
        let ghost kv = k@;
        let ghost vv = v@;
        let ghost pre = *self;
        self.entries.push((k, v));
        assert(self.keys() =~= pre.keys().push(kv));
        let ghost m = pre.map().insert(kv, vv);
        assert forall|i: int| 0 <= i < self.keys().len() implies m[#[trigger] self.keys()[i]]
            == self.value_at(i) by {
            if i < pre.keys().len() {
                pre.lemma_index(i);
            }
        }
        assert forall|k2: Seq<char>| m.contains_key(k2) <==> self.keys().contains(k2) by {
            if pre.keys().contains(k2) {
                let j = pre.keys().index_of(k2);
                assert(self.keys()[j] == k2);
            }
            if k2 == kv {
                assert(self.keys()[pre.keys().len() as int] == k2);
            }
            if self.keys().contains(k2) {
                let j = self.keys().index_of(k2);
                if j < pre.keys().len() {
                    assert(pre.keys()[j] == k2);
                }
            }
        }
        proof {
            self.lemma_map_from_index(m);
        }
    }

    /// Sets the value under `k` to `v`, adding `k` if it is not a key.
    pub fn upsert(&mut self, k: String, v: V)
        requires
            old(self).wf(),
        ensures
            final(self).wf(),
            final(self).map() == old(self).map().insert(k@, v@),
    {
        match self.position(&k) {
            Some(i) => {
                let ghost kv = k@;
                let ghost vv = v@;
                let ghost pre = *self;
                self.entries.set(i, (k, v));
                assert(self.keys() =~= pre.keys());
                let ghost m = pre.map().insert(kv, vv);
                assert forall|j: int| 0 <= j < self.keys().len() implies m[#[trigger] self.keys()[j]]
                    == self.value_at(j) by {
                    pre.lemma_index(j);
                }
                assert forall|k2: Seq<char>| m.contains_key(k2) <==> self.keys().contains(k2) by {
                    if k2 == kv {
                        assert(self.keys()[i as int] == k2);
                    }
                }
                proof {
                    self.lemma_map_from_index(m);
                }
            },
            None => self.push_new(k, v),
        }
    }

    /// Adds `k` with value `v` unless `k` is a key already.
    pub fn insert_if_absent(&mut self, k: String, v: V)
        requires
            old(self).wf(),
        ensures
            final(self).wf(),
            final(self).map() == (if old(self).map().contains_key(k@) {
                old(self).map()
            } else {
                old(self).map().insert(k@, v@)
            }),
    {
        match self.position(&k) {
            Some(i) => {
                proof {
                    self.lemma_index(i as int);
                }
            },
            None => self.push_new(k, v),
        }
    }

    /// Puts `v` in place of the `i`-th value and returns the value it replaces.
    pub fn replace_at(&mut self, i: usize, v: V) -> (r: V)
        requires
            old(self).wf(),
            i < old(self).keys().len(),
        ensures
            final(self).wf(),
            final(self).keys() == old(self).keys(),
            r@ == old(self).value_at(i as int),
            final(self).value_at(i as int) == v@,
            forall|j: int|
                0 <= j < old(self).keys().len() && j != i ==> #[trigger] final(self).value_at(j)
                    == old(self).value_at(j),
    {
        let mut v = v;
        std::mem::swap(&mut self.entries[i].1, &mut v);
        assert(self.keys() =~= old(self).keys());
        v
    }
}

} // verus!
