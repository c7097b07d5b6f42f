//! A small map keyed by strings, kept as a vector of entries sorted by key
//! (`str`'s order, as a `BTreeMap` keeps them), no key occurring twice.
use vstd::prelude::*;

use crate::text::{chars_lt, lemma_lt_irreflexive, lemma_lt_total, lemma_lt_transitive, str_eq, str_lt};

verus! {

/// String-keyed map; its view is a `Map` from key characters to values.
pub struct StrMap<V> {
    entries: Vec<(String, V)>,
}

impl<V> View for StrMap<V> {
    type V = Map<Seq<char>, V>;

    open spec fn view(&self) -> Map<Seq<char>, V> {
        self.model()
    }
}

/// Entries whose keys are in strictly increasing order.
pub open spec fn keys_sorted<V>(es: Seq<(String, V)>) -> bool {
    forall|i: int, j: int| 0 <= i < j < es.len() ==> chars_lt(#[trigger] es[i].0@, #[trigger] es[j].0@)
}

/// The number stored under `k`, or 0 when `k` is absent.
pub open spec fn count_at<N: Copy>(m: Map<Seq<char>, N>, k: Seq<char>, zero: N) -> N {
    if m.contains_key(k) {
        m[k]
    } else {
        zero
    }
}

impl<V> StrMap<V> {
    /// Well-formedness: the keys are in increasing order, so no key occurs
    /// twice.
    pub closed spec fn wf(self) -> bool {
        self.unique_keys() && keys_sorted(self.entries@)
    }

    /// No key occurs twice.
    pub closed spec fn unique_keys(self) -> bool {
        forall|i: int, j: int|
            0 <= i < j < self.entries@.len() ==> #[trigger] self.entries@[i].0@
                != #[trigger] self.entries@[j].0@
    }

    /// The entries in key order.
    pub closed spec fn entry_seq(self) -> Seq<(String, V)> {
        self.entries@
    }

    /// Whether some entry has key `k`.
    pub closed spec fn has_key(self, k: Seq<char>) -> bool {
        exists|i: int| 0 <= i < self.entries@.len() && #[trigger] self.entries@[i].0@ == k
    }

    /// The position of the entry with key `k`.
    pub closed spec fn key_pos(self, k: Seq<char>) -> int {
        choose|i: int| 0 <= i < self.entries@.len() && #[trigger] self.entries@[i].0@ == k
    }

    /// The map from keys to values.
    pub closed spec fn model(self) -> Map<Seq<char>, V> {
        Map::new(|k: Seq<char>| self.has_key(k), |k: Seq<char>| self.entries@[self.key_pos(k)].1)
    }

    /// Every key of the map is the key of some entry, and each entry is in
    /// the map with its own value.
    pub proof fn lemma_entries(self)
        requires
            self.wf(),
        ensures
            forall|i: int|
                0 <= i < self.entry_seq().len() ==> {
                    &&& self@.contains_key(#[trigger] self.entry_seq()[i].0@)
                    &&& self@[self.entry_seq()[i].0@] == self.entry_seq()[i].1
                },
            forall|k: Seq<char>|
                #[trigger] self@.contains_key(k) ==> exists|i: int|
                    0 <= i < self.entry_seq().len() && #[trigger] self.entry_seq()[i].0@ == k,
            self@.dom().finite(),
            self@.dom().len() == self.entry_seq().len(),
            keys_sorted(self.entry_seq()),
    {
        self.lemma_dom();
        assert forall|k: Seq<char>| #[trigger] self@.contains_key(k) implies exists|i: int|
            0 <= i < self.entry_seq().len() && #[trigger] self.entry_seq()[i].0@ == k by {
            let i = choose|i: int| 0 <= i < self.entries@.len() && #[trigger] self.entries@[i].0@ == k;
            assert(self.entry_seq()[i].0@ == k);
        }
        assert forall|i: int| 0 <= i < self.entry_seq().len() implies {
            &&& self@.contains_key(#[trigger] self.entry_seq()[i].0@)
            &&& self@[self.entry_seq()[i].0@] == self.entry_seq()[i].1
        } by {
            let k = self.entries@[i].0@;
            assert(self.has_key(k));
            let p = self.key_pos(k);
            if p != i {
                if p < i {
                    assert(self.entries@[p].0@ != self.entries@[i].0@);
                } else {
                    assert(self.entries@[i].0@ != self.entries@[p].0@);
                }
            }
        }
    }

    proof fn lemma_dom(self)
        requires
            self.unique_keys(),
        ensures
            self@.dom().finite(),
            self@.dom().len() == self.entries@.len(),
    {
        let keys = self.entries@.map_values(|e: (String, V)| e.0@);
        assert forall|i: int, j: int| 0 <= i < j < keys.len() implies keys[i] != keys[j] by {
            assert(self.entries@[i].0@ != self.entries@[j].0@);
        }
        keys.unique_seq_to_set();
        assert(self@.dom() =~= keys.to_set()) by {
            assert forall|k: Seq<char>| self@.dom().contains(k) implies keys.to_set().contains(
                k,
            ) by {
                let i = choose|i: int|
                    0 <= i < self.entries@.len() && #[trigger] self.entries@[i].0@ == k;
                assert(keys[i] == k);
            }
            assert forall|k: Seq<char>| keys.to_set().contains(k) implies self@.dom().contains(
                k,
            ) by {
                let i = choose|i: int| 0 <= i < keys.len() && keys[i] == k;
                assert(self.entries@[i].0@ == k);
            }
        }
    }

    /// An empty map.
    pub fn new() -> (m: Self)
        ensures
            m.wf(),
            m@ == Map::<Seq<char>, V>::empty(),
            m.entry_seq().len() == 0,
    {
        let m = StrMap { entries: Vec::new() };
        assert(m.model() =~= Map::<Seq<char>, V>::empty());
        m
    }

    /// Number of keys.
    pub fn len(&self) -> (n: usize)
        requires
            self.wf(),
        ensures
            n == self.entry_seq().len(),
            n == self@.dom().len(),
    {
        proof {
            self.lemma_entries();
        }
        self.entries.len()
    }

    /// The entries in key order.
    pub fn entries(&self) -> (e: &Vec<(String, V)>)
        ensures
            e@ == self.entry_seq(),
            self.wf() ==> keys_sorted(e@),
    {
        &self.entries
    }

    fn find(&self, k: &str) -> (r: Option<usize>)
        ensures
            r matches Some(i) ==> i < self.entries@.len() && self.entries@[i as int].0@ == k@,
            r is None ==> !self.has_key(k@),
    {
        let n = self.entries.len();
        for i in 0..n
            invariant
                n == self.entries@.len(),
                forall|j: int| 0 <= j < i ==> self.entries@[j].0@ != k@,
        {
            if str_eq(self.entries[i].0.as_str(), k) {
                return Some(i);
            }
        }
        None
    }

    proof fn lemma_pos(self, i: int)
        requires
            self.unique_keys(),
            0 <= i < self.entries@.len(),
        ensures
            self.has_key(self.entries@[i].0@),
            self.key_pos(self.entries@[i].0@) == i,
    {
        let k = self.entries@[i].0@;
        assert(self.has_key(k));
        let p = self.key_pos(k);
        if p != i {
            if p < i {
                assert(self.entries@[p].0@ != self.entries@[i].0@);
            } else {
                assert(self.entries@[i].0@ != self.entries@[p].0@);
            }
        }
    }

    /// The value stored under `k`, if any.
    pub fn get(&self, k: &str) -> (r: Option<&V>)
        requires
            self.wf(),
        ensures
            r matches Some(v) ==> self@.contains_key(k@) && *v == self@[k@],
            r is None ==> !self@.contains_key(k@),
    {
        match self.find(k) {
            Some(i) => {
                proof {
                    self.lemma_pos(i as int);
                }
                Some(&self.entries[i].1)
            },
            None => None,
        }
    }

    /// Sets the value under `k`, replacing any previous one; a new key is
    /// put in its place in key order.
    pub fn insert(&mut self, k: String, v: V)
        requires
            old(self).wf(),
        ensures
            final(self).wf(),
            final(self)@ == old(self)@.insert(k@, v),
            final(self).entry_seq().len() == old(self).entry_seq().len() + (if old(self)@.contains_key(
                k@,
            ) {
                0int
            } else {
                1int
            }),
    {
        let ghost old_self = *self;
        let ghost key = k@;
        match self.find(k.as_str()) {
            Some(i) => {
                proof {
                    old_self.lemma_pos(i as int);
                }
                self.entries.set(i, (k, v));
                proof {
                    assert forall|a: int, b: int| 0 <= a < b < self.entries@.len() implies chars_lt(
                        #[trigger] self.entries@[a].0@,
                        #[trigger] self.entries@[b].0@,
                    ) by {
                        assert(chars_lt(old_self.entries@[a].0@, old_self.entries@[b].0@));
                    }
                    assert forall|a: int, b: int|
                        0 <= a < b < self.entries@.len() implies #[trigger] self.entries@[a].0@
                        != #[trigger] self.entries@[b].0@ by {
                        assert(old_self.entries@[a].0@ != old_self.entries@[b].0@);
                    }
                    self.lemma_pos(i as int);
                    assert forall|q: Seq<char>| #[trigger] self.has_key(q) == old_self.has_key(q) by {
                        if old_self.has_key(q) {
                            let j = choose|j: int|
                                0 <= j < old_self.entries@.len() && #[trigger] old_self.entries@[j].0@ == q;
                            assert(self.entries@[j].0@ == q);
                        }
                        if self.has_key(q) {
                            let j = choose|j: int|
                                0 <= j < self.entries@.len() && #[trigger] self.entries@[j].0@ == q;
                            assert(old_self.entries@[j].0@ == q);
                        }
                    }
                    assert forall|q: Seq<char>| #[trigger] self.has_key(q) && q != key implies self.entries@[self.key_pos(q)].1
                        == old_self.entries@[old_self.key_pos(q)].1 by {
                        let j = old_self.key_pos(q);
                        old_self.lemma_pos(j);
                        assert(j != i);
                        assert(self.entries@[j].0@ == q);
                        self.lemma_pos(j);
                    }
                    assert(self.model() =~= old_self.model().insert(key, v));
                }
            },
            None => {
                let n = self.entries.len();
                let mut p: usize = 0;
                while p < n && str_lt(self.entries[p].0.as_str(), k.as_str())
                    invariant
                        p <= n,
                        n == self.entries@.len(),
                        self.entries@ == old_self.entries@,
                        key == k@,
                        forall|j: int| 0 <= j < p ==> chars_lt(#[trigger] old_self.entries@[j].0@, key),
                    decreases n - p,
                {
                    p = p + 1;
                }
                proof {
                    if p < n {
                        assert(old_self.entries@[p as int].0@ != key);
                        lemma_lt_total(old_self.entries@[p as int].0@, key);
                    }
                }
                self.entries.insert(p, (k, v));
                proof {
                    let oe = old_self.entries@;
                    let ne = self.entries@;
                    let pi = p as int;
                    assert(ne.len() == oe.len() + 1);
                    assert forall|a: int| 0 <= a < ne.len() && a != pi implies #[trigger] ne[a] == (if a < pi {
                        oe[a]
                    } else {
                        oe[a - 1]
                    }) by {}
                    assert(ne[pi].0@ == key);
                    assert forall|a: int, b: int| 0 <= a < b < ne.len() implies chars_lt(
                        #[trigger] ne[a].0@,
                        #[trigger] ne[b].0@,
                    ) by {
                        if a < pi && b < pi {
                            assert(chars_lt(oe[a].0@, oe[b].0@));
                        } else if a < pi && b == pi {
                            assert(chars_lt(oe[a].0@, key));
                        } else if a < pi {
                            assert(ne[b] == oe[b - 1]);
                            assert(chars_lt(oe[a].0@, oe[b - 1].0@));
                        } else if a == pi {
                            assert(ne[b] == oe[b - 1]);
                            assert(chars_lt(key, oe[pi].0@));
                            if b - 1 > pi {
                                assert(chars_lt(oe[pi].0@, oe[b - 1].0@));
                                lemma_lt_transitive(key, oe[pi].0@, oe[b - 1].0@);
                            }
                        } else {
                            assert(ne[a] == oe[a - 1]);
                            assert(ne[b] == oe[b - 1]);
                            assert(chars_lt(oe[a - 1].0@, oe[b - 1].0@));
                        }
                    }
                    assert forall|a: int, b: int|
                        0 <= a < b < ne.len() implies #[trigger] ne[a].0@ != #[trigger] ne[b].0@ by {
                        assert(chars_lt(ne[a].0@, ne[b].0@));
                        if ne[a].0@ == ne[b].0@ {
                            lemma_lt_irreflexive(ne[a].0@);
                        }
                    }
                    self.lemma_pos(pi);
                    assert forall|q: Seq<char>| #[trigger] self.has_key(q) == (old_self.has_key(q)
                        || q == key) by {
                        if old_self.has_key(q) {
                            let j = choose|j: int|
                                0 <= j < oe.len() && #[trigger] oe[j].0@ == q;
                            let j2 = if j < pi { j } else { j + 1 };
                            assert(ne[j2] == oe[j]);
                            assert(self.entries@[j2].0@ == q);
                        }
                        if self.has_key(q) && q != key {
                            let j = choose|j: int|
                                0 <= j < ne.len() && #[trigger] self.entries@[j].0@ == q;
                            assert(j != pi);
                            let j3 = if j < pi { j } else { j - 1 };
                            assert(ne[j] == oe[j3]);
                            assert(old_self.entries@[j3].0@ == q);
                        }
                    }
                    assert forall|q: Seq<char>| #[trigger] self.has_key(q) && q != key implies self.entries@[self.key_pos(q)].1
                        == old_self.entries@[old_self.key_pos(q)].1 by {
                        let j = old_self.key_pos(q);
                        old_self.lemma_pos(j);
                        let j2 = if j < pi { j } else { j + 1 };
                        assert(ne[j2] == oe[j]);
                        self.lemma_pos(j2);
                    }
                    assert(self.model() =~= old_self.model().insert(key, v));
                    old_self.lemma_dom();
                }
            },
        }
    }

    /// Removes the entry with key `k`, returning its value; the other
    /// entries keep their order.
    pub fn remove(&mut self, k: &str) -> (r: Option<V>)
        requires
            old(self).wf(),
        ensures
            final(self).wf(),
            final(self)@ == old(self)@.remove(k@),
            match r {
                Some(v) => old(self)@.contains_key(k@) && v == old(self)@[k@],
                None => !old(self)@.contains_key(k@),
            },
    {
        let ghost old_self = *self;
        match self.find(k) {
            Some(i) => {
                proof {
                    old_self.lemma_pos(i as int);
                }
                let (_, v) = self.entries.remove(i);
                proof {
                    let oe = old_self.entries@;
                    assert forall|a: int| 0 <= a < self.entries@.len() implies #[trigger] self.entries@[a] == (if a < i { oe[a] } else { oe[a + 1] }) by {}
                    assert forall|a: int, b: int|
                        0 <= a < b < self.entries@.len() implies #[trigger] self.entries@[a].0@
                        != #[trigger] self.entries@[b].0@ by {
                        let a2 = if a < i { a } else { a + 1 };
                        let b2 = if b < i { b } else { b + 1 };
                        assert(self.entries@[a] == oe[a2]);
                        assert(self.entries@[b] == oe[b2]);
                        assert(oe[a2].0@ != oe[b2].0@);
                    }
                    assert forall|q: Seq<char>| #[trigger] self.has_key(q) == (old_self.has_key(q) && q != k@) by {
                        if self.has_key(q) {
                            let j = choose|j: int| 0 <= j < self.entries@.len() && #[trigger] self.entries@[j].0@ == q;
                            let j2 = if j < i { j } else { j + 1 };
                            assert(self.entries@[j] == oe[j2]);
                            assert(oe[j2].0@ == q);
                            if q == k@ {
                                old_self.lemma_pos(j2);
                            }
                        }
                        if old_self.has_key(q) && q != k@ {
                            let j = old_self.key_pos(q);
                            old_self.lemma_pos(j);
                            assert(j != i);
                            let j3 = if j < i { j } else { j - 1 };
                            assert(self.entries@[j3] == oe[j]);
                        }
                    }
                    assert forall|q: Seq<char>| #[trigger] self.has_key(q) implies self.entries@[self.key_pos(q)].1
                        == old_self.entries@[old_self.key_pos(q)].1 by {
                        let j = self.key_pos(q);
                        self.lemma_pos(j);
                        let j2 = if j < i { j } else { j + 1 };
                        assert(self.entries@[j] == oe[j2]);
                        old_self.lemma_pos(j2);
                    }
                    assert(self.model() =~= old_self.model().remove(k@));
                }
                Some(v)
            },
            None => {
                proof {
                    assert(self.model() =~= old_self.model().remove(k@));
                }
                None
            },
        }
    }
}

impl StrMap<usize> {
    /// Adds one to the count stored under `k` (a missing key counts as 0).
    pub fn increment(&mut self, k: &str)
        requires
            old(self).wf(),
            count_at(old(self)@, k@, 0usize) < usize::MAX,
        ensures
            final(self).wf(),
            final(self)@ == old(self)@.insert(k@, (count_at(old(self)@, k@, 0usize) + 1) as usize),
    {
        let c: usize = match self.get(k) {
            Some(v) => *v,
            None => 0,
        };
        self.insert(crate::text::owned(k), c + 1);
    }
}

impl StrMap<u32> {
    /// Adds one to the count stored under `k` (a missing key counts as 0).
    pub fn increment_u32(&mut self, k: &str)
        requires
            old(self).wf(),
            count_at(old(self)@, k@, 0u32) < u32::MAX,
        ensures
            final(self).wf(),
            final(self)@ == old(self)@.insert(k@, (count_at(old(self)@, k@, 0u32) + 1) as u32),
    {
        let c: u32 = match self.get(k) {
            Some(v) => *v,
            None => 0,
        };
        self.insert(crate::text::owned(k), c + 1);
    }
}

} // verus!
