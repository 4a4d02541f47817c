use vstd::prelude::*;

use crate::util::text::{
    compare_text, lemma_text_lt_irreflexive, lemma_text_lt_transitive, text_lt,
};

verus! {

/// Records addressed by a text key, kept in ascending key order so that every walk over them,
/// and every secondary lookup derived from them, sees the records in primary-key order.
pub struct IndexedStore<V> {
    rows: Vec<(String, V)>,
}

impl<V> View for IndexedStore<V> {
    type V = Map<Seq<char>, V>;

    /// The record stored under each key.
    open spec fn view(&self) -> Map<Seq<char>, V> {
        Map::new(
            |k: Seq<char>| exists|i: int| 0 <= i < self.rows().len() && self.rows()[i].0 == k,
            |k: Seq<char>| self.rows()[self.row_of(k)].1,
        )
    }
}

impl<V> IndexedStore<V> {
    /// The key/record rows in storage order.
    pub closed spec fn rows(&self) -> Seq<(Seq<char>, V)> {
        self.rows@.map_values(|r: (String, V)| (r.0@, r.1))
    }

    /// A row that holds key `k`, where one does.
    pub open spec fn row_of(&self, k: Seq<char>) -> int {
        choose|i: int| 0 <= i < self.rows().len() && self.rows()[i].0 == k
    }

    /// The records in ascending key order.
    pub open spec fn records(&self) -> Seq<V> {
        self.rows().map_values(|r: (Seq<char>, V)| r.1)
    }

    /// Keys strictly ascend along the rows, so that each key occurs once.
    pub open spec fn well_formed(&self) -> bool {
        forall|i: int, j: int|
            0 <= i < j < self.rows().len() ==> text_lt(self.rows()[i].0, self.rows()[j].0)
    }

    /// The row at `i` is what the map view holds for its key.
    pub proof fn lemma_row_in_view(&self, i: int)
        requires
            self.well_formed(),
            0 <= i < self.rows().len(),
        ensures
            self@.contains_key(self.rows()[i].0),
            self@[self.rows()[i].0] == self.rows()[i].1,
    {
        let k = self.rows()[i].0;
        assert(self@.dom().contains(k));
        let j = self.row_of(k);
        if j < i {
            assert(text_lt(self.rows()[j].0, self.rows()[i].0));
            lemma_text_lt_irreflexive(k);
        } else if j > i {
            assert(text_lt(self.rows()[i].0, self.rows()[j].0));
            lemma_text_lt_irreflexive(k);
        }
        assert(self@[k] == self.rows()[j].1);
    }

    /// An empty store.
    pub fn new() -> (r: Self)
        ensures
            r.well_formed(),
            r@ == Map::<Seq<char>, V>::empty(),
            r.records().len() == 0,
    {
        let r = IndexedStore { rows: Vec::new() };
        assert(r@ =~= Map::<Seq<char>, V>::empty());
        r
    }

    /// The number of records.
    pub fn len(&self) -> (r: usize)
        ensures
            r == self.records().len(),
    {
        self.rows.len()
    }

    /// The record at position `i` in key order.
    pub fn record_at(&self, i: usize) -> (r: &V)
        requires
            i < self.records().len(),
        ensures
            *r == self.records()[i as int],
    {
        &self.rows[i].1
    }

    /// The first position whose key is not below `key`, and whether its key is `key`.
    fn position(&self, key: &str) -> (r: (usize, bool))
        requires
            self.well_formed(),
        ensures
            r.0 <= self.rows().len(),
            forall|j: int| 0 <= j < r.0 ==> text_lt(#[trigger] self.rows()[j].0, key@),
            r.1 ==> r.0 < self.rows().len() && self.rows()[r.0 as int].0 == key@,
            !r.1 ==> r.0 < self.rows().len() ==> text_lt(key@, self.rows()[r.0 as int].0),
    {
        let mut i: usize = 0;
        while i < self.rows.len()
            invariant
                i <= self.rows().len(),
                self.rows().len() == self.rows@.len(),
                forall|j: int| 0 <= j < i ==> text_lt(#[trigger] self.rows()[j].0, key@),
            decreases self.rows.len() - i,
        {
            let c = compare_text(self.rows[i].0.as_str(), key);
            if c == 0 {
                return (i, true);
            } else if c > 0 {
                return (i, false);
            }
            i = i + 1;
        }
        (i, false)
    }

    /// Whether a record is stored under `key`; where it is, its position in key order.
    pub fn find(&self, key: &str) -> (r: Option<usize>)
        requires
            self.well_formed(),
        ensures
            r is None <==> !self@.contains_key(key@),
            r matches Some(i) ==> i < self.records().len() && self.rows()[i as int].0 == key@
                && self.records()[i as int] == self@[key@],
    {
        let (i, hit) = self.position(key);
        if hit {
            proof {
                self.lemma_row_in_view(i as int);
            }
            Some(i)
        } else {
            proof {
                assert forall|j: int| 0 <= j < self.rows().len() implies self.rows()[j].0 != key@ by {
                    if j < i {
                        lemma_text_lt_irreflexive(key@);
                    } else if self.rows()[j].0 == key@ {
                        lemma_text_lt_transitive(key@, self.rows()[i as int].0, key@);
                        lemma_text_lt_irreflexive(key@);
                    }
                }
            }
            None
        }
    }

    /// The record stored under `key`, if any.
    pub fn maybe_load(&self, key: &str) -> (r: Option<&V>)
        requires
            self.well_formed(),
        ensures
            r is None <==> !self@.contains_key(key@),
            r matches Some(v) ==> *v == self@[key@],
    {
        match self.find(key) {
            Some(i) => Some(&self.rows[i].1),
            None => None,
        }
    }

    /// Whether a record is stored under `key`.
    pub fn contains(&self, key: &str) -> (r: bool)
        requires
            self.well_formed(),
        ensures
            r == self@.contains_key(key@),
    {
        self.find(key).is_some()
    }

    /// Stores `value` under `key`, in place of any record stored there before.
    pub fn replace(&mut self, key: String, value: V)
        requires
            old(self).well_formed(),
        ensures
            final(self).well_formed(),
            final(self)@ == old(self)@.insert(key@, value),
    {
        let (p, hit) = self.position(key.as_str());
        let ghost before = self.rows();
        if hit {
            self.rows.set(p, (key, value));
            assert(self.rows() =~= before.update(p as int, (key@, value)));
        } else {
            proof {
                if p < before.len() {
                    assert forall|j: int| p <= j < before.len() implies text_lt(key@, #[trigger] before[j].0) by {
                        if j > p {
                            lemma_text_lt_transitive(key@, before[p as int].0, before[j].0);
                        }
                    }
                }
            }
            self.rows.insert(p, (key, value));
            assert(self.rows() =~= before.insert(p as int, (key@, value)));
        }
        let ghost k = key@;
        assert(self.well_formed()) by {
            assert forall|i: int, j: int| 0 <= i < j < self.rows().len() implies text_lt(
                self.rows()[i].0,
                self.rows()[j].0,
            ) by {
                if !hit {
                    if i < p && j > p {
                        lemma_text_lt_transitive(self.rows()[i].0, k, self.rows()[j].0);
                    }
                } else {
                }
            }
        }
        assert forall|k2: Seq<char>| #[trigger] self@.contains_key(k2) == old(self)@.insert(k, value).contains_key(k2)
            && (self@.contains_key(k2) ==> self@[k2] == old(self)@.insert(k, value)[k2]) by {
            if k2 == k {
                self.lemma_row_in_view(p as int);
            } else if old(self)@.contains_key(k2) {
                let oj = choose|j: int| 0 <= j < before.len() && before[j].0 == k2;
                old(self).lemma_row_in_view(oj);
                let j = if hit || oj < p { oj } else { oj + 1 };
                assert(self.rows()[j] == before[oj]);
                self.lemma_row_in_view(j);
            } else {
                assert forall|j: int| 0 <= j < self.rows().len() implies self.rows()[j].0 != k2 by {
                    if j != p {
                        let oj = if hit || j < p { j } else { j - 1 };
                        assert(self.rows()[j] == before[oj]);
                    }
                }
            }
        }
        assert(self@ =~= old(self)@.insert(k, value));
    }

    /// Stores `value` under `key` if no record is stored there; returns whether it did.
    pub fn insert(&mut self, key: String, value: V) -> (r: bool)
        requires
            old(self).well_formed(),
        ensures
            final(self).well_formed(),
            r == !old(self)@.contains_key(key@),
            r ==> final(self)@ == old(self)@.insert(key@, value),
            !r ==> final(self)@ == old(self)@,
    {
        if self.contains(key.as_str()) {
            false
        } else {
            self.replace(key, value);
            true
        }
    }

    /// Takes out the record stored under `key`, if any.
    pub fn remove(&mut self, key: &str) -> (r: Option<V>)
        requires
            old(self).well_formed(),
        ensures
            final(self).well_formed(),
            r is None <==> !old(self)@.contains_key(key@),
            r matches Some(v) ==> v == old(self)@[key@],
            final(self)@ == old(self)@.remove(key@),
    {
        match self.find(key) {
            None => {
                assert(self@ =~= old(self)@.remove(key@));
                None
            },
            Some(p) => {
                let ghost before = self.rows();
                let row = self.rows.remove(p);
                assert(self.rows() =~= before.remove(p as int));
                assert(self.well_formed()) by {
                    assert forall|i: int, j: int| 0 <= i < j < self.rows().len() implies text_lt(
                        self.rows()[i].0,
                        self.rows()[j].0,
                    ) by {
                        let oi = if i < p { i } else { i + 1 };
                        let oj = if j < p { j } else { j + 1 };
                        assert(self.rows()[i] == before[oi]);
                        assert(self.rows()[j] == before[oj]);
                    }
                }
                assert forall|k2: Seq<char>| #[trigger] self@.contains_key(k2) == old(self)@.remove(key@).contains_key(k2)
                    && (self@.contains_key(k2) ==> self@[k2] == old(self)@.remove(key@)[k2]) by {
                    if k2 != key@ && old(self)@.contains_key(k2) {
                        let oj = choose|j: int| 0 <= j < before.len() && before[j].0 == k2;
                        old(self).lemma_row_in_view(oj);
                        let j = if oj < p { oj } else { oj - 1 };
                        assert(self.rows()[j] == before[oj]);
                        self.lemma_row_in_view(j);
                    } else {
                        assert forall|j: int| 0 <= j < self.rows().len() implies self.rows()[j].0 != k2 by {
                            let oj = if j < p { j } else { j + 1 };
                            assert(self.rows()[j] == before[oj]);
                            if k2 == key@ {
                                assert(before[p as int].0 == key@);
                                if oj < p {
                                    assert(text_lt(before[oj].0, before[p as int].0));
                                } else {
                                    assert(text_lt(before[p as int].0, before[oj].0));
                                }
                                lemma_text_lt_irreflexive(key@);
                            }
                        }
                    }
                }
                assert(self@ =~= old(self)@.remove(key@));
                Some(row.1)
            },
        }
    }
}

} // verus!
