//! Small association maps with unique keys, backed by vectors.
//!
//! Per-tab caches (frames, execution contexts, node buckets, network
//! requests) and the pending-call registry are maps from an identifier
//! to a record. They are kept as entry vectors so that every operation
//! and every invariant is stated directly over the entries.

use vstd::prelude::*;

verus! {

/// A map from string identifiers to values; at most one entry per key.
pub struct StrMap<V> {
    pub entries: Vec<(String, V)>,
}

impl<V> StrMap<V> {
    /// Number of entries.
    pub open spec fn len(&self) -> nat {
        self.entries@.len()
    }

    /// Well-formed: no key occurs twice.
    pub open spec fn wf(&self) -> bool {
        forall|i: int, j: int|
            0 <= i < j < self.entries@.len() ==> self.entries@[i].0@ != self.entries@[j].0@
    }

    /// Whether some entry's key reads `k`.
    pub open spec fn spec_has_key(&self, k: Seq<char>) -> bool {
        exists|i: int| 0 <= i < self.entries@.len() && self.entries@[i].0@ == k
    }

    /// The value stored under `k` (meaningful when `spec_has_key(k)`).
    pub open spec fn spec_get(&self, k: Seq<char>) -> V {
        self.entries@[self.spec_index_of(k)].1
    }

    /// The index of the entry whose key reads `k`.
    pub open spec fn spec_index_of(&self, k: Seq<char>) -> int {
        choose|i: int| 0 <= i < self.entries@.len() && self.entries@[i].0@ == k
    }

    /// In a well-formed map, every entry with key `k` holds `spec_get(k)`.
    pub proof fn lemma_get_unique(&self, k: Seq<char>)
        requires
            self.wf(),
            self.spec_has_key(k),
        ensures
            0 <= self.spec_index_of(k) < self.entries@.len(),
            self.entries@[self.spec_index_of(k)].0@ == k,
            forall|i: int|
                0 <= i < self.entries@.len() && self.entries@[i].0@ == k ==> i
                    == self.spec_index_of(k),
    {
        let i0 = self.spec_index_of(k);
        assert forall|i: int|
            0 <= i < self.entries@.len() && self.entries@[i].0@ == k implies i == i0 by {
            if i < i0 {
                assert(self.entries@[i].0@ != self.entries@[i0].0@);
            } else if i0 < i {
                assert(self.entries@[i0].0@ != self.entries@[i].0@);
            }
        }
    }

    pub fn new() -> (r: StrMap<V>)
        ensures
            r.wf(),
            r.len() == 0,
            forall|k: Seq<char>| !r.spec_has_key(k),
    {
        StrMap { entries: Vec::new() }
    }

    /// Number of entries, as an executable value.
    pub fn count(&self) -> (r: usize)
        ensures
            r == self.len(),
    {
        self.entries.len()
    }

    fn find_index(&self, k: &String) -> (r: Option<usize>)
        ensures
            match r {
                Some(i) => 0 <= i < self.entries@.len() && self.entries@[i as int].0@ == k@,
                None => !self.spec_has_key(k@),
            },
    {
        let n = self.entries.len();
        let mut i: usize = 0;
        while i < n
            invariant
                n == self.entries@.len(),
                i <= n,
                forall|j: int| 0 <= j < i ==> self.entries@[j].0@ != k@,
            decreases n - i,
        {
            if self.entries[i].0 == *k {
                return Some(i);
            }
            i = i + 1;
        }
        None
    }

    pub fn contains_key(&self, k: &String) -> (r: bool)
        ensures
            r == self.spec_has_key(k@),
    {
        self.find_index(k).is_some()
    }

    pub fn get(&self, k: &String) -> (r: Option<&V>)
        requires
            self.wf(),
        ensures
            match r {
                Some(v) => self.spec_has_key(k@) && *v == self.spec_get(k@),
                None => !self.spec_has_key(k@),
            },
    {
        match self.find_index(k) {
            Some(i) => {
                proof {
                    self.lemma_get_unique(k@);
                }
                Some(&self.entries[i].1)
            },
            None => None,
        }
    }

    /// Insert `v` under `k`, replacing any earlier entry for that key.
    /// Returns the replaced value.
    pub fn insert(&mut self, k: String, v: V) -> (prior: Option<V>)
        requires
            old(self).wf(),
        ensures
            final(self).wf(),
            final(self).spec_has_key(k@),
            final(self).spec_get(k@) == v,
            forall|k2: Seq<char>|
                k2 != k@ ==> final(self).spec_has_key(k2) == old(self).spec_has_key(k2),
            forall|k2: Seq<char>|
                k2 != k@ && old(self).spec_has_key(k2) ==> final(self).spec_get(k2) == old(
                    self,
                ).spec_get(k2),
            prior is Some <==> old(self).spec_has_key(k@),
            prior matches Some(p) ==> p == old(self).spec_get(k@),
            final(self).len() == if old(self).spec_has_key(k@) {
                old(self).len()
            } else {
                old(self).len() + 1
            },
    {
        let ghost kq: Seq<char> = k@;
        match self.find_index(&k) {
            Some(i) => {
                proof {
                    old(self).lemma_get_unique(kq);
                }
                let ghost old_entries = self.entries@;
                let ghost kval = k;
                let ghost vval = v;
                let mut pair = (k, v);
                vstd::pervasive::VecAdditionalExecFns::set_and_swap(&mut self.entries, i, &mut pair);
                let prior = pair;
                proof {
                    assert(self.entries@ =~= old_entries.update(i as int, (kval, vval)));
                    assert(old_entries[i as int].0@ == kq);
                    assert(self.entries@[i as int].0@ == kq);
                    assert(self.wf());
                    self.lemma_get_unique(kq);
                    assert(self.spec_get(kq) == v);
                    assert forall|k2: Seq<char>|
                        k2 != kq && old(self).spec_has_key(k2) implies self.spec_has_key(k2)
                        && self.spec_get(k2) == old(self).spec_get(k2) by {
                        old(self).lemma_get_unique(k2);
                        let j = old(self).spec_index_of(k2);
                        assert(self.entries@[j].0@ == k2);
                        self.lemma_get_unique(k2);
                    }
                    assert forall|k2: Seq<char>| k2 != kq && self.spec_has_key(k2) implies old(
                        self,
                    ).spec_has_key(k2) by {
                        self.lemma_get_unique(k2);
                        let j = self.spec_index_of(k2);
                        assert(old_entries[j].0@ == k2);
                    }
                }
                Some(prior.1)
            },
            None => {
                let ghost old_entries = self.entries@;
                self.entries.push((k, v));
                proof {
                    let ghost n = old_entries.len() as int;
                    assert(self.entries@[n].0@ == kq);
                    assert forall|i2: int, j2: int|
                        0 <= i2 < j2 < self.entries@.len() implies self.entries@[i2].0@
                        != self.entries@[j2].0@ by {
                        if j2 < n {
                        } else {
                            assert(j2 == n);
                            if self.entries@[i2].0@ == kq {
                                assert(old(self).spec_has_key(kq));
                            }
                        }
                    }
                    assert(self.spec_has_key(kq));
                    self.lemma_get_unique(kq);
                    assert(self.spec_get(kq) == v);
                    assert forall|k2: Seq<char>|
                        k2 != kq && old(self).spec_has_key(k2) implies self.spec_has_key(k2)
                        && self.spec_get(k2) == old(self).spec_get(k2) by {
                        old(self).lemma_get_unique(k2);
                        let j = old(self).spec_index_of(k2);
                        assert(self.entries@[j].0@ == k2);
                        self.lemma_get_unique(k2);
                    }
                    assert forall|k2: Seq<char>| k2 != kq && self.spec_has_key(k2) implies old(
                        self,
                    ).spec_has_key(k2) by {
                        self.lemma_get_unique(k2);
                        let j = self.spec_index_of(k2);
                        assert(j != n);
                        assert(old_entries[j].0@ == k2);
                    }
                }
                None
            },
        }
    }

    /// Remove the entry under `k`, if any, and return its value.
    pub fn remove(&mut self, k: &String) -> (removed: Option<V>)
        requires
            old(self).wf(),
        ensures
            final(self).wf(),
            !final(self).spec_has_key(k@),
            forall|k2: Seq<char>|
                k2 != k@ ==> final(self).spec_has_key(k2) == old(self).spec_has_key(k2),
            forall|k2: Seq<char>|
                k2 != k@ && old(self).spec_has_key(k2) ==> final(self).spec_get(k2) == old(
                    self,
                ).spec_get(k2),
            removed is Some <==> old(self).spec_has_key(k@),
            removed matches Some(p) ==> p == old(self).spec_get(k@),
            !old(self).spec_has_key(k@) ==> *final(self) == *old(self),
            final(self).len() == if old(self).spec_has_key(k@) {
                (old(self).len() - 1) as nat
            } else {
                old(self).len()
            },
    {
        let ghost kq: Seq<char> = k@;
        match self.find_index(k) {
            Some(i) => {
                proof {
                    old(self).lemma_get_unique(kq);
                }
                let ghost old_entries = self.entries@;
                let pair = self.entries.remove(i);
                proof {
                    assert(self.entries@ =~= old_entries.remove(i as int));
                    assert(pair.0@ == kq);
                    assert forall|k2: Seq<char>| k2 != kq && old(self).spec_has_key(k2) implies self.spec_has_key(
                        k2,
                    ) && self.spec_get(k2) == old(self).spec_get(k2) by {
                        old(self).lemma_get_unique(k2);
                        let j = old(self).spec_index_of(k2);
                        let j2 = if j < i as int { j } else { j - 1 };
                        assert(self.entries@[j2].0@ == k2);
                        self.lemma_get_unique(k2);
                    }
                    assert forall|k2: Seq<char>| self.spec_has_key(k2) implies k2 != kq && old(
                        self,
                    ).spec_has_key(k2) by {
                        self.lemma_get_unique(k2);
                        let j = self.spec_index_of(k2);
                        let j2 = if j < i as int { j } else { j + 1 };
                        assert(old_entries[j2].0@ == k2);
                        if k2 == kq {
                            old(self).lemma_get_unique(kq);
                        }
                    }
                }
                Some(pair.1)
            },
            None => None,
        }
    }

    /// Borrow the entry at position `i`, for iteration.
    pub fn entry_at(&self, i: usize) -> (r: &(String, V))
        requires
            i < self.len(),
        ensures
            *r == self.entries@[i as int],
    {
        &self.entries[i]
    }
}

/// A map from integer identifiers to values; at most one entry per key.
pub struct U64Map<V> {
    pub entries: Vec<(u64, V)>,
}

impl<V> U64Map<V> {
    /// Number of entries.
    pub open spec fn len(&self) -> nat {
        self.entries@.len()
    }

    /// Well-formed: no key occurs twice.
    pub open spec fn wf(&self) -> bool {
        forall|i: int, j: int|
            0 <= i < j < self.entries@.len() ==> self.entries@[i].0 != self.entries@[j].0
    }

    /// Whether some entry's key is `k`.
    pub open spec fn spec_has_key(&self, k: u64) -> bool {
        exists|i: int| 0 <= i < self.entries@.len() && self.entries@[i].0 == k
    }

    /// The value stored under `k` (meaningful when `spec_has_key(k)`).
    pub open spec fn spec_get(&self, k: u64) -> V {
        self.entries@[self.spec_index_of(k)].1
    }

    /// The index of the entry whose key is `k`.
    pub open spec fn spec_index_of(&self, k: u64) -> int {
        choose|i: int| 0 <= i < self.entries@.len() && self.entries@[i].0 == k
    }

    /// In a well-formed map, every entry with key `k` holds `spec_get(k)`.
    pub proof fn lemma_get_unique(&self, k: u64)
        requires
            self.wf(),
            self.spec_has_key(k),
        ensures
            0 <= self.spec_index_of(k) < self.entries@.len(),
            self.entries@[self.spec_index_of(k)].0 == k,
            forall|i: int|
                0 <= i < self.entries@.len() && self.entries@[i].0 == k ==> i == self.spec_index_of(
                    k,
                ),
    {
        let i0 = self.spec_index_of(k);
        assert forall|i: int|
            0 <= i < self.entries@.len() && self.entries@[i].0 == k implies i == i0 by {
            if i < i0 {
                assert(self.entries@[i].0 != self.entries@[i0].0);
            } else if i0 < i {
                assert(self.entries@[i0].0 != self.entries@[i].0);
            }
        }
    }

    pub fn new() -> (r: U64Map<V>)
        ensures
            r.wf(),
            r.len() == 0,
            forall|k: u64| !r.spec_has_key(k),
    {
        U64Map { entries: Vec::new() }
    }

    /// Number of entries, as an executable value.
    pub fn count(&self) -> (r: usize)
        ensures
            r == self.len(),
    {
        self.entries.len()
    }

    fn find_index(&self, k: u64) -> (r: Option<usize>)
        ensures
            match r {
                Some(i) => 0 <= i < self.entries@.len() && self.entries@[i as int].0 == k,
                None => !self.spec_has_key(k),
            },
    {
        let n = self.entries.len();
        let mut i: usize = 0;
        while i < n
            invariant
                n == self.entries@.len(),
                i <= n,
                forall|j: int| 0 <= j < i ==> self.entries@[j].0 != k,
            decreases n - i,
        {
            if self.entries[i].0 == k {
                return Some(i);
            }
            i = i + 1;
        }
        None
    }

    pub fn contains_key(&self, k: u64) -> (r: bool)
        ensures
            r == self.spec_has_key(k),
    {
        self.find_index(k).is_some()
    }

    pub fn get(&self, k: u64) -> (r: Option<&V>)
        requires
            self.wf(),
        ensures
            match r {
                Some(v) => self.spec_has_key(k) && *v == self.spec_get(k),
                None => !self.spec_has_key(k),
            },
    {
        match self.find_index(k) {
            Some(i) => {
                proof {
                    self.lemma_get_unique(k);
                }
                Some(&self.entries[i].1)
            },
            None => None,
        }
    }

    /// Insert `v` under `k`, replacing any earlier entry for that key.
    /// Returns the replaced value.
    pub fn insert(&mut self, k: u64, v: V) -> (prior: Option<V>)
        requires
            old(self).wf(),
        ensures
            final(self).wf(),
            final(self).spec_has_key(k),
            final(self).spec_get(k) == v,
            forall|k2: u64| k2 != k ==> final(self).spec_has_key(k2) == old(self).spec_has_key(k2),
            forall|k2: u64|
                k2 != k && old(self).spec_has_key(k2) ==> final(self).spec_get(k2) == old(
                    self,
                ).spec_get(k2),
            prior is Some <==> old(self).spec_has_key(k),
            prior matches Some(p) ==> p == old(self).spec_get(k),
            final(self).len() == if old(self).spec_has_key(k) {
                old(self).len()
            } else {
                old(self).len() + 1
            },
    {
        match self.find_index(k) {
            Some(i) => {
                proof {
                    old(self).lemma_get_unique(k);
                }
                let ghost old_entries = self.entries@;
                let mut pair = (k, v);
                vstd::pervasive::VecAdditionalExecFns::set_and_swap(&mut self.entries, i, &mut pair);
                let prior = pair;
                proof {
                    assert(self.entries@ =~= old_entries.update(i as int, (k, v)));
                    assert(self.entries@[i as int].0 == k);
                    assert(self.wf());
                    self.lemma_get_unique(k);
                    assert(self.spec_get(k) == v);
                    assert forall|k2: u64|
                        k2 != k && old(self).spec_has_key(k2) implies self.spec_has_key(k2)
                        && self.spec_get(k2) == old(self).spec_get(k2) by {
                        old(self).lemma_get_unique(k2);
                        let j = old(self).spec_index_of(k2);
                        assert(self.entries@[j].0 == k2);
                        self.lemma_get_unique(k2);
                    }
                    assert forall|k2: u64| k2 != k && self.spec_has_key(k2) implies old(
                        self,
                    ).spec_has_key(k2) by {
                        self.lemma_get_unique(k2);
                        let j = self.spec_index_of(k2);
                        assert(old_entries[j].0 == k2);
                    }
                }
                Some(prior.1)
            },
            None => {
                let ghost old_entries = self.entries@;
                self.entries.push((k, v));
                proof {
                    let ghost n = old_entries.len() as int;
                    assert(self.entries@[n].0 == k);
                    assert forall|i2: int, j2: int|
                        0 <= i2 < j2 < self.entries@.len() implies self.entries@[i2].0
                        != self.entries@[j2].0 by {
                        if j2 < n {
                        } else {
                            assert(j2 == n);
                            if self.entries@[i2].0 == k {
                                assert(old(self).spec_has_key(k));
                            }
                        }
                    }
                    assert(self.spec_has_key(k));
                    self.lemma_get_unique(k);
                    assert(self.spec_get(k) == v);
                    assert forall|k2: u64|
                        k2 != k && old(self).spec_has_key(k2) implies self.spec_has_key(k2)
                        && self.spec_get(k2) == old(self).spec_get(k2) by {
                        old(self).lemma_get_unique(k2);
                        let j = old(self).spec_index_of(k2);
                        assert(self.entries@[j].0 == k2);
                        self.lemma_get_unique(k2);
                    }
                    assert forall|k2: u64| k2 != k && self.spec_has_key(k2) implies old(
                        self,
                    ).spec_has_key(k2) by {
                        self.lemma_get_unique(k2);
                        let j = self.spec_index_of(k2);
                        assert(j != n);
                        assert(old_entries[j].0 == k2);
                    }
                }
                None
            },
        }
    }

    /// Remove the entry under `k`, if any, and return its value.
    pub fn remove(&mut self, k: u64) -> (removed: Option<V>)
        requires
            old(self).wf(),
        ensures
            final(self).wf(),
            !final(self).spec_has_key(k),
            forall|k2: u64| k2 != k ==> final(self).spec_has_key(k2) == old(self).spec_has_key(k2),
            forall|k2: u64|
                k2 != k && old(self).spec_has_key(k2) ==> final(self).spec_get(k2) == old(
                    self,
                ).spec_get(k2),
            removed is Some <==> old(self).spec_has_key(k),
            removed matches Some(p) ==> p == old(self).spec_get(k),
            !old(self).spec_has_key(k) ==> *final(self) == *old(self),
            final(self).len() == if old(self).spec_has_key(k) {
                (old(self).len() - 1) as nat
            } else {
                old(self).len()
            },
    {
        match self.find_index(k) {
            Some(i) => {
                proof {
                    old(self).lemma_get_unique(k);
                }
                let ghost old_entries = self.entries@;
                let pair = self.entries.remove(i);
                proof {
                    assert(self.entries@ =~= old_entries.remove(i as int));
                    assert(pair.0 == k);
                    assert forall|k2: u64| k2 != k && old(self).spec_has_key(k2) implies self.spec_has_key(
                        k2,
                    ) && self.spec_get(k2) == old(self).spec_get(k2) by {
                        old(self).lemma_get_unique(k2);
                        let j = old(self).spec_index_of(k2);
                        let j2 = if j < i as int { j } else { j - 1 };
                        assert(self.entries@[j2].0 == k2);
                        self.lemma_get_unique(k2);
                    }
                    assert forall|k2: u64| self.spec_has_key(k2) implies k2 != k && old(
                        self,
                    ).spec_has_key(k2) by {
                        self.lemma_get_unique(k2);
                        let j = self.spec_index_of(k2);
                        let j2 = if j < i as int { j } else { j + 1 };
                        assert(old_entries[j2].0 == k2);
                        if k2 == k {
                            old(self).lemma_get_unique(k);
                        }
                    }
                }
                Some(pair.1)
            },
            None => None,
        }
    }

    /// Borrow the entry at position `i`, for iteration.
    pub fn entry_at(&self, i: usize) -> (r: &(u64, V))
        requires
            i < self.len(),
        ensures
            *r == self.entries@[i as int],
    {
        &self.entries[i]
    }
}

} // verus!
