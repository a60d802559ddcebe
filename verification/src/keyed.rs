//! A small map from static names to values, kept as a list of distinct keys.

use vstd::prelude::*;

use crate::text::{ends_with, spec_ends_with, str_eq};

verus! {

/// The name at position `i`.
pub open spec fn key_at<V>(s: Seq<(&'static str, V)>, i: int) -> Seq<char> {
    s[i].0@
}

/// No name occurs twice.
pub open spec fn keys_distinct<V>(s: Seq<(&'static str, V)>) -> bool {
    forall|i: int, j: int|
        0 <= i < s.len() && 0 <= j < s.len() && i != j ==> #[trigger] key_at(s, i) != #[trigger] key_at(
            s,
            j,
        )
}

/// `k` occurs at some position.
pub open spec fn has_key<V>(s: Seq<(&'static str, V)>, k: Seq<char>) -> bool {
    exists|i: int| 0 <= i < s.len() && #[trigger] key_at(s, i) == k
}

/// The map that a list of distinct keys stands for.
pub open spec fn entries_map<V>(s: Seq<(&'static str, V)>) -> Map<Seq<char>, V> {
    Map::new(
        |k: Seq<char>| has_key(s, k),
        |k: Seq<char>| s[choose|i: int| 0 <= i < s.len() && #[trigger] key_at(s, i) == k].1,
    )
}

/// In a list of distinct keys, the entry at `i` is what the map holds for its key.
pub proof fn lemma_entry_in_map<V>(s: Seq<(&'static str, V)>, i: int)
    requires
        keys_distinct(s),
        0 <= i < s.len(),
    ensures
        entries_map(s).dom().contains(key_at(s, i)),
        entries_map(s)[key_at(s, i)] == s[i].1,
{
    let k = key_at(s, i);
    assert(has_key(s, k));
    let c = choose|j: int| 0 <= j < s.len() && #[trigger] key_at(s, j) == k;
    assert(0 <= c < s.len() && key_at(s, c) == k);
    if c != i {
        assert(key_at(s, c) != key_at(s, i));
    }
}

/// A map from static names to values.
pub struct KeyedStore<V> {
    entries: Vec<(&'static str, V)>,
}

impl<V: Copy> View for KeyedStore<V> {
    type V = Map<Seq<char>, V>;

    closed spec fn view(&self) -> Map<Seq<char>, V> {
        entries_map(self.entries@)
    }
}

impl<V: Copy> KeyedStore<V> {
    /// No name occurs twice in the store.
    pub closed spec fn wf(&self) -> bool {
        keys_distinct(self.entries@)
    }

    pub fn new() -> (r: Self)
        ensures
            r.wf(),
            r@ == Map::<Seq<char>, V>::empty(),
    {
        let r = KeyedStore { entries: Vec::new() };
        assert(r@ =~= Map::<Seq<char>, V>::empty());
        r
    }

    fn find(&self, key: &str) -> (r: Option<usize>)
        ensures
            match r {
                Some(i) => i < self.entries@.len() && key_at(self.entries@, i as int) == key@,
                None => !has_key(self.entries@, key@),
            },
    {
        let mut i: usize = 0;
        while i < self.entries.len()
            invariant
                i <= self.entries@.len(),
                forall|j: int| 0 <= j < i ==> key_at(self.entries@, j) != key@,
            decreases self.entries@.len() - i,
        {
            if str_eq(self.entries[i].0, key) {
                return Some(i);
            }
            i = i + 1;
        }
        None
    }

    /// The value kept under `key`, if any.
    pub fn get(&self, key: &str) -> (r: Option<V>)
        requires
            self.wf(),
        ensures
            r == (if self@.dom().contains(key@) {
                Some(self@[key@])
            } else {
                None
            }),
    {
        match self.find(key) {
            Some(i) => {
                proof {
                    lemma_entry_in_map(self.entries@, i as int);
                }
                Some(self.entries[i].1)
            },
            None => None,
        }
    }

    /// Keeps `v` under `key`, replacing what was there.
    pub fn insert(&mut self, key: &'static str, v: V)
        requires
            old(self).wf(),
        ensures
            final(self).wf(),
            final(self)@ == old(self)@.insert(key@, v),
    {
        let ghost s0 = self.entries@;
        match self.find(key) {
            Some(i) => {
                self.entries.set(i, (key, v));
                let ghost s1 = self.entries@;
                assert(forall|j: int| 0 <= j < s1.len() ==> key_at(s1, j) == key_at(s0, j));
                assert(keys_distinct(s1));
                assert forall|k: Seq<char>| #[trigger] entries_map(s1).dom().contains(k) == old(
                    self,
                )@.insert(key@, v).dom().contains(k) by {
                    if has_key(s0, k) {
                        let j = choose|j: int| 0 <= j < s0.len() && #[trigger] key_at(s0, j) == k;
                        assert(key_at(s1, j) == k);
                    }
                    if has_key(s1, k) {
                        let j = choose|j: int| 0 <= j < s1.len() && #[trigger] key_at(s1, j) == k;
                        assert(key_at(s0, j) == k);
                    }
                }
                assert forall|k: Seq<char>| #[trigger]
                    entries_map(s1).dom().contains(k) implies entries_map(s1)[k] == old(
                    self,
                )@.insert(key@, v)[k] by {
                    let j = choose|j: int| 0 <= j < s1.len() && #[trigger] key_at(s1, j) == k;
                    lemma_entry_in_map(s1, j);
                    if j != i {
                        assert(key_at(s0, j) == k);
                        lemma_entry_in_map(s0, j);
                    }
                }
                assert(entries_map(s1) =~= old(self)@.insert(key@, v));
            },
            None => {
                self.entries.push((key, v));
                let ghost s1 = self.entries@;
                assert(forall|j: int| 0 <= j < s0.len() ==> key_at(s1, j) == key_at(s0, j));
                assert(keys_distinct(s1)) by {
                    assert forall|a: int, b: int|
                        0 <= a < s1.len() && 0 <= b < s1.len() && a != b implies #[trigger] key_at(
                        s1,
                        a,
                    ) != #[trigger] key_at(s1, b) by {
                        if a == s0.len() as int {
                            assert(key_at(s0, b) != key@);
                        } else if b == s0.len() as int {
                            assert(key_at(s0, a) != key@);
                        }
                    }
                }
                assert forall|k: Seq<char>| #[trigger] entries_map(s1).dom().contains(k) == old(
                    self,
                )@.insert(key@, v).dom().contains(k) by {
                    if has_key(s0, k) {
                        let j = choose|j: int| 0 <= j < s0.len() && #[trigger] key_at(s0, j) == k;
                        assert(key_at(s1, j) == k);
                    }
                    if k == key@ {
                        assert(key_at(s1, s0.len() as int) == k);
                    }
                    if has_key(s1, k) {
                        let j = choose|j: int| 0 <= j < s1.len() && #[trigger] key_at(s1, j) == k;
                        if j < s0.len() {
                            assert(key_at(s0, j) == k);
                        }
                    }
                }
                assert forall|k: Seq<char>| #[trigger]
                    entries_map(s1).dom().contains(k) implies entries_map(s1)[k] == old(
                    self,
                )@.insert(key@, v)[k] by {
                    let j = choose|j: int| 0 <= j < s1.len() && #[trigger] key_at(s1, j) == k;
                    lemma_entry_in_map(s1, j);
                    if j < s0.len() {
                        assert(key_at(s0, j) == k);
                        lemma_entry_in_map(s0, j);
                    }
                }
                assert(entries_map(s1) =~= old(self)@.insert(key@, v));
            },
        }
    }

    /// Forgets what is kept under `key`.
    pub fn remove(&mut self, key: &str)
        requires
            old(self).wf(),
        ensures
            final(self).wf(),
            final(self)@ == old(self)@.remove(key@),
    {
        let ghost s0 = self.entries@;
        match self.find(key) {
            Some(i) => {
                self.entries.remove(i);
                let ghost s1 = self.entries@;
                assert(forall|j: int| 0 <= j < i ==> key_at(s1, j) == key_at(s0, j));
                assert(forall|j: int| i <= j < s1.len() ==> key_at(s1, j) == key_at(s0, j + 1));
                assert(keys_distinct(s1)) by {
                    assert forall|a: int, b: int|
                        0 <= a < s1.len() && 0 <= b < s1.len() && a != b implies #[trigger] key_at(
                        s1,
                        a,
                    ) != #[trigger] key_at(s1, b) by {
                        let a0 = if a < i { a } else { a + 1 };
                        let b0 = if b < i { b } else { b + 1 };
                        assert(key_at(s1, a) == key_at(s0, a0));
                        assert(key_at(s1, b) == key_at(s0, b0));
                    }
                }
                assert forall|k: Seq<char>| #[trigger] entries_map(s1).dom().contains(k) == old(
                    self,
                )@.remove(key@).dom().contains(k) by {
                    if has_key(s0, k) && k != key@ {
                        let j = choose|j: int| 0 <= j < s0.len() && #[trigger] key_at(s0, j) == k;
                        assert(j != i);
                        if j < i {
                            assert(key_at(s1, j) == k);
                        } else {
                            assert(key_at(s1, j - 1) == k);
                        }
                    }
                    if has_key(s1, k) {
                        let j = choose|j: int| 0 <= j < s1.len() && #[trigger] key_at(s1, j) == k;
                        let j0 = if j < i { j } else { j + 1 };
                        assert(key_at(s0, j0) == k);
                        assert(j0 != i);
                    }
                }
                assert forall|k: Seq<char>| #[trigger]
                    entries_map(s1).dom().contains(k) implies entries_map(s1)[k] == old(
                    self,
                )@.remove(key@)[k] by {
                    let j = choose|j: int| 0 <= j < s1.len() && #[trigger] key_at(s1, j) == k;
                    lemma_entry_in_map(s1, j);
                    let j0 = if j < i { j } else { j + 1 };
                    assert(key_at(s0, j0) == k);
                    lemma_entry_in_map(s0, j0);
                }
                assert(entries_map(s1) =~= old(self)@.remove(key@));
            },
            None => {
                assert(old(self)@.remove(key@) =~= old(self)@);
            },
        }
    }

    /// Forgets everything.
    pub fn clear(&mut self)
        ensures
            final(self).wf(),
            final(self)@ == Map::<Seq<char>, V>::empty(),
    {
        self.entries.clear();
        assert(self@ =~= Map::<Seq<char>, V>::empty());
    }

    /// Forgets every name that ends with `suffix`.
    pub fn retain_not_ending_with(&mut self, suffix: &str)
        requires
            old(self).wf(),
        ensures
            final(self).wf(),
            final(self)@ == old(self)@.restrict(
                old(self)@.dom().filter(|k: Seq<char>| !spec_ends_with(k, suffix@)),
            ),
    {
        let ghost s0 = self.entries@;
        let mut kept: Vec<(&'static str, V)> = Vec::new();
        let mut i: usize = 0;
        while i < self.entries.len()
            invariant
                s0 == self.entries@,
                keys_distinct(s0),
                i <= s0.len(),
                keys_distinct(kept@),
                forall|j: int| #![trigger kept@[j]]
                    0 <= j < kept@.len() ==> exists|m: int|
                        0 <= m < i && kept@[j] == #[trigger] s0[m] && !spec_ends_with(
                            key_at(s0, m),
                            suffix@,
                        ),
                forall|m: int| #![trigger s0[m]]
                    0 <= m < i && !spec_ends_with(key_at(s0, m), suffix@) ==> exists|j: int|
                        0 <= j < kept@.len() && kept@[j] == s0[m],
            decreases s0.len() - i,
        {
            let e = self.entries[i];
            if !ends_with(e.0, suffix) {
                let ghost k0 = kept@;
                kept.push(e);
                assert(kept@[k0.len() as int] == s0[i as int]);
                assert(keys_distinct(kept@)) by {
                    assert forall|a: int, b: int|
                        0 <= a < kept@.len() && 0 <= b < kept@.len() && a != b implies #[trigger] key_at(
                        kept@,
                        a,
                    ) != #[trigger] key_at(kept@, b) by {
                        if a == k0.len() as int {
                            assert(kept@[b] == k0[b]);
                            let m = choose|m: int|
                                0 <= m < i && k0[b] == #[trigger] s0[m] && !spec_ends_with(
                                    key_at(s0, m),
                                    suffix@,
                                );
                            assert(key_at(s0, m) != key_at(s0, i as int));
                        } else if b == k0.len() as int {
                            assert(kept@[a] == k0[a]);
                            let m = choose|m: int|
                                0 <= m < i && k0[a] == #[trigger] s0[m] && !spec_ends_with(
                                    key_at(s0, m),
                                    suffix@,
                                );
                            assert(key_at(s0, m) != key_at(s0, i as int));
                        } else {
                            assert(kept@[a] == k0[a]);
                            assert(kept@[b] == k0[b]);
                            assert(key_at(k0, a) != key_at(k0, b));
                        }
                    }
                }
                assert forall|j: int| #![trigger kept@[j]] 0 <= j < kept@.len() implies exists|m: int|
                    0 <= m < i + 1 && kept@[j] == #[trigger] s0[m] && !spec_ends_with(
                        key_at(s0, m),
                        suffix@,
                    ) by {
                    if j < k0.len() {
                        assert(kept@[j] == k0[j]);
                        let m = choose|m: int|
                            0 <= m < i && k0[j] == #[trigger] s0[m] && !spec_ends_with(
                                key_at(s0, m),
                                suffix@,
                            );
                        assert(kept@[j] == s0[m]);
                    } else {
                        assert(kept@[j] == s0[i as int]);
                    }
                }
                assert forall|m: int| #![trigger s0[m]]
                    0 <= m < i + 1 && !spec_ends_with(key_at(s0, m), suffix@) implies exists|j: int|
                    0 <= j < kept@.len() && kept@[j] == s0[m] by {
                    if m < i {
                        let j = choose|j: int| 0 <= j < k0.len() && k0[j] == s0[m];
                        assert(kept@[j] == k0[j]);
                    } else {
                        assert(kept@[k0.len() as int] == s0[m]);
                    }
                }
            }
            i = i + 1;
        }
        let ghost target = old(self)@.restrict(
            old(self)@.dom().filter(|k: Seq<char>| !spec_ends_with(k, suffix@)),
        );
        let ghost s1 = kept@;
        assert forall|k: Seq<char>| #[trigger] entries_map(s1).dom().contains(k) == target.dom().contains(
            k,
        ) by {
            if has_key(s1, k) {
                let j = choose|j: int| 0 <= j < s1.len() && #[trigger] key_at(s1, j) == k;
                let m = choose|m: int|
                    0 <= m < s0.len() && s1[j] == #[trigger] s0[m] && !spec_ends_with(
                        key_at(s0, m),
                        suffix@,
                    );
                assert(key_at(s0, m) == k);
                assert(has_key(s0, k));
            }
            if target.dom().contains(k) {
                let m = choose|m: int| 0 <= m < s0.len() && #[trigger] key_at(s0, m) == k;
                assert(!spec_ends_with(key_at(s0, m), suffix@));
                let j = choose|j: int| 0 <= j < s1.len() && s1[j] == s0[m];
                assert(key_at(s1, j) == k);
            }
        }
        assert forall|k: Seq<char>| #[trigger]
            entries_map(s1).dom().contains(k) implies entries_map(s1)[k] == target[k] by {
            let j = choose|j: int| 0 <= j < s1.len() && #[trigger] key_at(s1, j) == k;
            lemma_entry_in_map(s1, j);
            let m = choose|m: int|
                0 <= m < s0.len() && s1[j] == #[trigger] s0[m] && !spec_ends_with(
                    key_at(s0, m),
                    suffix@,
                );
            assert(key_at(s0, m) == k);
            lemma_entry_in_map(s0, m);
        }
        assert(entries_map(s1) =~= target);
        self.entries = kept;
    }
}

} // verus!
