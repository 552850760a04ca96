//! A table of records keyed by name: an ordered association list in which
//! no key occurs twice. Its view is the map from each key to its record.

use vstd::prelude::*;
use crate::text::str_eq;

verus! {

/// Records keyed by name, kept in insertion order, each key at most once.
pub struct Table<V> {
    entries: Vec<(String, V)>,
}

impl<V: View> Table<V> {
    /// The entries as (key, record view) pairs, in order.
    pub closed spec fn entries_view(&self) -> Seq<(Seq<char>, V::V)> {
        self.entries@.map_values(|e: (String, V)| (e.0@, e.1@))
    }

    /// The keys, in order.
    pub open spec fn keys(&self) -> Seq<Seq<char>> {
        self.entries_view().map_values(|e: (Seq<char>, V::V)| e.0)
    }

    /// No key occurs twice.
    pub open spec fn wf(&self) -> bool {
        self.keys().no_duplicates()
    }

    /// Whether `k` is a key of the table.
    pub open spec fn has(&self, k: Seq<char>) -> bool {
        self.keys().contains(k)
    }

    /// The number of entries.
    pub open spec fn count(&self) -> nat {
        self.entries_view().len()
    }

    /// The position of key `k`.
    pub open spec fn index_of(&self, k: Seq<char>) -> int {
        choose|i: int| 0 <= i < self.keys().len() && self.keys()[i] == k
    }

    /// The record stored under each key.
    pub open spec fn view(&self) -> Map<Seq<char>, V::V> {
        Map::new(
            |k: Seq<char>| self.has(k),
            |k: Seq<char>| self.entries_view()[self.index_of(k)].1,
        )
    }

    /// In a well-formed table the position of the key at `i` is `i`.
    pub proof fn lemma_index_of(&self, i: int)
        requires
            self.wf(),
            0 <= i < self.count(),
        ensures
            self.index_of(self.keys()[i]) == i,
            self.has(self.keys()[i]),
    {
        let k = self.keys()[i];
        assert(self.keys()[i] == k);
        let j = self.index_of(k);
        assert(0 <= j < self.keys().len() && self.keys()[j] == k);
    }

    /// An empty table.
    pub fn new() -> (t: Self)
        ensures
            t.wf(),
            t.count() == 0,
            t@ == Map::<Seq<char>, V::V>::empty(),
    {
        let t = Table { entries: Vec::new() };
        assert(t.keys() =~= Seq::<Seq<char>>::empty());
        assert(t@ =~= Map::<Seq<char>, V::V>::empty());
        t
    }

    /// The number of entries.
    pub fn len(&self) -> (n: usize)
        ensures
            n == self.count(),
    {
        self.entries.len()
    }

    /// The key at position `i`.
    pub fn key_at(&self, i: usize) -> (k: &String)
        requires
            i < self.count(),
        ensures
            k@ == self.keys()[i as int],
    {
        &self.entries[i].0
    }

    /// The record at position `i`.
    pub fn value_at(&self, i: usize) -> (v: &V)
        requires
            i < self.count(),
        ensures
            v@ == self.entries_view()[i as int].1,
    {
        &self.entries[i].1
    }

    /// The position of key `k`, if it is in the table.
    pub fn find(&self, k: &str) -> (r: Option<usize>)
        requires
            self.wf(),
        ensures
            r matches Some(i) ==> i < self.count() && self.keys()[i as int] == k@ && self.index_of(k@) == i,
            r is None <==> !self.has(k@),
    {
        let mut i: usize = 0;
        while i < self.entries.len()
            invariant
                self.wf(),
                i <= self.count(),
                forall|j: int| 0 <= j < i ==> self.keys()[j] != k@,
            decreases self.count() - i,
        {
            if str_eq(self.entries[i].0.as_str(), k) {
                proof { self.lemma_index_of(i as int); }
                return Some(i);
            }
            i = i + 1;
        }
        None
    }

    /// Whether `k` is a key of the table.
    pub fn contains_key(&self, k: &str) -> (b: bool)
        requires
            self.wf(),
        ensures
            b == self@.contains_key(k@),
    {
        self.find(k).is_some()
    }

    /// The record stored under `k`.
    pub fn get(&self, k: &str) -> (r: Option<&V>)
        requires
            self.wf(),
        ensures
            r matches Some(v) ==> self@.contains_key(k@) && v@ == self@[k@],
            r is None <==> !self@.contains_key(k@),
    {
        match self.find(k) {
            Some(i) => Some(&self.entries[i].1),
            None => None,
        }
    }

    /// Stores `v` under `k`, replacing the record already there; a new key
    /// goes at the end.
    pub fn insert(&mut self, k: String, v: V)
        requires
            old(self).wf(),
        ensures
            final(self).wf(),
            final(self)@ == old(self)@.insert(k@, v@),
            old(self).has(k@) ==> final(self).keys() == old(self).keys(),
            !old(self).has(k@) ==> final(self).keys() == old(self).keys().push(k@),
            old(self).has(k@) ==> final(self).count() == old(self).count(),
            !old(self).has(k@) ==> final(self).count() == old(self).count() + 1,
    {
        let ghost kv = k@;
        let ghost vv = v@;
        match self.find(k.as_str()) {
            Some(i) => {
                self.entries.set(i, (k, v));
                proof {
                    assert(self.entries_view() =~= old(self).entries_view().update(i as int, (kv, vv)));
                    assert(self.keys() =~= old(self).keys());
                    assert forall|x: Seq<char>| #[trigger] self@.contains_key(x) implies self@[x] == old(self)@.insert(kv, vv)[x] by {
                        let j = self.index_of(x);
                        assert(0 <= j < self.keys().len() && self.keys()[j] == x);
                        self.lemma_index_of(j);
                        if x != kv {
                            old(self).lemma_index_of(j);
                        }
                    }
                    assert(self@ =~= old(self)@.insert(kv, vv));
                }
            },
            None => {
                self.entries.push((k, v));
                proof {
                    assert(self.entries_view() =~= old(self).entries_view().push((kv, vv)));
                    assert(self.keys() =~= old(self).keys().push(kv));
                    assert forall|a: int, b: int| 0 <= a < b < self.keys().len() implies self.keys()[a] != self.keys()[b] by {
                        if b == self.keys().len() - 1 {
                            assert(old(self).keys()[a] == self.keys()[a]);
                        }
                    }
                    assert forall|x: Seq<char>| #[trigger] self@.contains_key(x) implies self@[x] == old(self)@.insert(kv, vv)[x] by {
                        let j = self.index_of(x);
                        assert(0 <= j < self.keys().len() && self.keys()[j] == x);
                        self.lemma_index_of(j);
                        if x != kv {
                            assert(j < old(self).keys().len());
                            old(self).lemma_index_of(j);
                        }
                    }
                    assert forall|x: Seq<char>| #[trigger] old(self)@.insert(kv, vv).contains_key(x) implies self@.contains_key(x) by {
                        if x != kv {
                            let j = old(self).index_of(x);
                            assert(0 <= j < old(self).keys().len() && old(self).keys()[j] == x);
                            assert(self.keys()[j] == x);
                        } else {
                            assert(self.keys()[self.keys().len() - 1] == kv);
                        }
                    }
                    assert(self@ =~= old(self)@.insert(kv, vv));
                }
            },
        }
    }

    /// Removes the record stored under `k` and hands it back; the other
    /// entries keep their order.
    pub fn remove(&mut self, k: &str) -> (r: Option<V>)
        requires
            old(self).wf(),
        ensures
            final(self).wf(),
            final(self)@ == old(self)@.remove(k@),
            r matches Some(v) ==> old(self)@.contains_key(k@) && v@ == old(self)@[k@],
            r is None <==> !old(self)@.contains_key(k@),
            old(self).has(k@) ==> final(self).keys() == old(self).keys().remove(old(self).index_of(k@)),
            !old(self).has(k@) ==> final(self).keys() == old(self).keys(),
    {
        match self.find(k) {
            Some(i) => {
                let e = self.entries.remove(i);
                proof {
                    let ii = i as int;
                    assert(self.entries_view() =~= old(self).entries_view().remove(ii));
                    assert(self.keys() =~= old(self).keys().remove(ii));
                    assert forall|a: int, b: int| 0 <= a < b < self.keys().len() implies self.keys()[a] != self.keys()[b] by {
                        let oa = if a < ii { a } else { a + 1 };
                        let ob = if b < ii { b } else { b + 1 };
                        assert(self.keys()[a] == old(self).keys()[oa]);
                        assert(self.keys()[b] == old(self).keys()[ob]);
                    }
                    assert forall|x: Seq<char>| #[trigger] self@.contains_key(x) implies self@[x] == old(self)@.remove(k@)[x] && x != k@ by {
                        let j = self.index_of(x);
                        assert(0 <= j < self.keys().len() && self.keys()[j] == x);
                        self.lemma_index_of(j);
                        let oj = if j < ii { j } else { j + 1 };
                        assert(old(self).keys()[oj] == x);
                        old(self).lemma_index_of(oj);
                    }
                    assert forall|x: Seq<char>| #[trigger] old(self)@.remove(k@).contains_key(x) implies self@.contains_key(x) by {
                        let j = old(self).index_of(x);
                        assert(0 <= j < old(self).keys().len() && old(self).keys()[j] == x);
                        assert(j != ii);
                        let nj = if j < ii { j } else { j - 1 };
                        assert(self.keys()[nj] == x);
                    }
                    assert(self@ =~= old(self)@.remove(k@));
                }
                Some(e.1)
            },
            None => {
                proof {
                    assert(old(self)@.remove(k@) =~= old(self)@);
                }
                None
            },
        }
    }

    /// Removes the entry under `k` and hands back its position, key and
    /// record.
    pub fn remove_entry(&mut self, k: &str) -> (r: Option<(usize, String, V)>)
        requires
            old(self).wf(),
        ensures
            final(self).wf(),
            final(self)@ == old(self)@.remove(k@),
            r matches Some(e) ==> {
                &&& old(self)@.contains_key(k@)
                &&& e.0 == old(self).index_of(k@)
                &&& e.0 < old(self).count()
                &&& e.1@ == k@
                &&& e.2@ == old(self)@[k@]
                &&& final(self).keys() == old(self).keys().remove(e.0 as int)
                &&& final(self).count() + 1 == old(self).count()
            },
            r is None <==> !old(self)@.contains_key(k@),
            r is None ==> *final(self) == *old(self),
    {
        match self.find(k) {
            Some(i) => {
                let ghost before = *self;
                let e = self.entries.remove(i);
                proof {
                    let ii = i as int;
                    assert(self.entries_view() =~= before.entries_view().remove(ii));
                    assert(self.keys() =~= before.keys().remove(ii));
                    assert forall|a: int, b: int| 0 <= a < b < self.keys().len() implies self.keys()[a] != self.keys()[b] by {
                        let oa = if a < ii { a } else { a + 1 };
                        let ob = if b < ii { b } else { b + 1 };
                        assert(self.keys()[a] == before.keys()[oa]);
                        assert(self.keys()[b] == before.keys()[ob]);
                    }
                    assert forall|x: Seq<char>| #[trigger] self@.contains_key(x) implies self@[x] == before@.remove(k@)[x] && x != k@ by {
                        let j = self.index_of(x);
                        assert(0 <= j < self.keys().len() && self.keys()[j] == x);
                        self.lemma_index_of(j);
                        let oj = if j < ii { j } else { j + 1 };
                        assert(before.keys()[oj] == x);
                        before.lemma_index_of(oj);
                    }
                    assert forall|x: Seq<char>| #[trigger] before@.remove(k@).contains_key(x) implies self@.contains_key(x) by {
                        let j = before.index_of(x);
                        assert(0 <= j < before.keys().len() && before.keys()[j] == x);
                        assert(j != ii);
                        let nj = if j < ii { j } else { j - 1 };
                        assert(self.keys()[nj] == x);
                    }
                    assert(self@ =~= before@.remove(k@));
                    assert(before.entries_view()[ii].0 == e.0@);
                }
                Some((i, e.0, e.1))
            },
            None => {
                proof {
                    assert(old(self)@.remove(k@) =~= old(self)@);
                }
                None
            },
        }
    }

    /// Stores `v` under the new key `k` at position `i`.
    pub fn insert_at(&mut self, i: usize, k: String, v: V)
        requires
            old(self).wf(),
            !old(self).has(k@),
            i <= old(self).count(),
        ensures
            final(self).wf(),
            final(self)@ == old(self)@.insert(k@, v@),
            final(self).keys() == old(self).keys().insert(i as int, k@),
            final(self).count() == old(self).count() + 1,
    {
        let ghost kv = k@;
        let ghost vv = v@;
        let ghost before = *self;
        self.entries.insert(i, (k, v));
        proof {
            let ii = i as int;
            assert(self.entries_view() =~= before.entries_view().insert(ii, (kv, vv)));
            assert(self.keys() =~= before.keys().insert(ii, kv));
            assert forall|a: int, b: int| 0 <= a < b < self.keys().len() implies self.keys()[a] != self.keys()[b] by {
                if a != ii && b != ii {
                    let oa = if a < ii { a } else { a - 1 };
                    let ob = if b < ii { b } else { b - 1 };
                    assert(self.keys()[a] == before.keys()[oa]);
                    assert(self.keys()[b] == before.keys()[ob]);
                } else if a == ii {
                    let ob = b - 1;
                    assert(self.keys()[b] == before.keys()[ob]);
                } else {
                    let oa = if a < ii { a } else { a - 1 };
                    assert(self.keys()[a] == before.keys()[oa]);
                }
            }
            assert forall|x: Seq<char>| #[trigger] self@.contains_key(x) implies self@[x] == before@.insert(kv, vv)[x] by {
                let j = self.index_of(x);
                assert(0 <= j < self.keys().len() && self.keys()[j] == x);
                self.lemma_index_of(j);
                if j != ii {
                    let oj = if j < ii { j } else { j - 1 };
                    assert(before.keys()[oj] == x);
                    before.lemma_index_of(oj);
                }
            }
            assert forall|x: Seq<char>| #[trigger] before@.insert(kv, vv).contains_key(x) implies self@.contains_key(x) by {
                if x != kv {
                    let j = before.index_of(x);
                    assert(0 <= j < before.keys().len() && before.keys()[j] == x);
                    let nj = if j < ii { j } else { j + 1 };
                    assert(self.keys()[nj] == x);
                } else {
                    assert(self.keys()[ii] == kv);
                }
            }
            assert(self@ =~= before@.insert(kv, vv));
        }
    }
}

} // verus!
