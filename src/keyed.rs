use vstd::prelude::*;

use crate::text::same_text;

verus! {

/// A map from text keys to values, held as a list of entries whose keys are
/// pairwise distinct.
pub struct KeyedList<V> {
    entries: Vec<(String, V)>,
}

/// Whether some entry of `s` has key `k`.
pub open spec fn has_key<V>(s: Seq<(String, V)>, k: Seq<char>) -> bool {
    exists|i: int| 0 <= i < s.len() && #[trigger] s[i].0@ == k
}

/// The value of the entry of `s` with key `k` (meaningful when keys are distinct).
pub open spec fn value_at_key<V>(s: Seq<(String, V)>, k: Seq<char>) -> V {
    s[choose|i: int| 0 <= i < s.len() && #[trigger] s[i].0@ == k].1
}

/// The keys of `s` are pairwise distinct.
pub open spec fn distinct_keys<V>(s: Seq<(String, V)>) -> bool {
    forall|i: int, j: int| 0 <= i < s.len() && 0 <= j < s.len() && i != j ==> s[i].0@ != s[j].0@
}

/// The map that a list of entries with distinct keys stands for.
pub open spec fn entries_map<V>(s: Seq<(String, V)>) -> Map<Seq<char>, V> {
    Map::new(|k: Seq<char>| has_key(s, k), |k: Seq<char>| value_at_key(s, k))
}

proof fn lemma_entry<V>(s: Seq<(String, V)>, i: int)
    requires
        distinct_keys(s),
        0 <= i < s.len(),
    ensures
        has_key(s, s[i].0@),
        value_at_key(s, s[i].0@) == s[i].1,
        entries_map(s).contains_key(s[i].0@),
        entries_map(s)[s[i].0@] == s[i].1,
{
    assert(s[i].0@ == s[i].0@);
}

impl<V> View for KeyedList<V> {
    type V = Map<Seq<char>, V>;

    closed spec fn view(&self) -> Map<Seq<char>, V> {
        entries_map(self.entries@)
    }
}

impl<V> KeyedList<V> {
    /// Keys are pairwise distinct.
    pub closed spec fn wf(&self) -> bool {
        distinct_keys(self.entries@)
    }

    /// An empty map.
    pub fn new() -> (r: Self)
        ensures
            r.wf(),
            r@ == Map::<Seq<char>, V>::empty(),
    {
        let r = KeyedList { entries: Vec::new() };
        assert(r@ =~= Map::<Seq<char>, V>::empty());
        r
    }

    /// The position of the entry with key `k`, if there is one.
    fn position(&self, k: &str) -> (r: Option<usize>)
        requires
            self.wf(),
        ensures
            match r {
                Some(i) => i < self.entries@.len() && self.entries@[i as int].0@ == k@,
                None => !self@.contains_key(k@),
            },
    {
        let mut i: usize = 0;
        while i < self.entries.len()
            invariant
                i <= self.entries@.len(),
                forall|j: int| 0 <= j < i ==> #[trigger] self.entries@[j].0@ != k@,
            decreases self.entries@.len() - i,
        {
            if same_text(self.entries[i].0.as_str(), k) {
                return Some(i);
            }
            i = i + 1;
        }
        None
    }

    /// The value stored under `k`.
    pub fn get(&self, k: &str) -> (r: Option<&V>)
        requires
            self.wf(),
        ensures
            match r {
                Some(v) => self@.contains_key(k@) && self@[k@] == *v,
                None => !self@.contains_key(k@),
            },
    {
        match self.position(k) {
            Some(i) => {
                proof {
                    lemma_entry(self.entries@, i as int);
                }
                Some(&self.entries[i].1)
            },
            None => None,
        }
    }

    /// Stores `v` under `k`, replacing any value already there.
    pub fn insert(&mut self, k: String, v: V)
        requires
            old(self).wf(),
        ensures
            final(self).wf(),
            final(self)@ == old(self)@.insert(k@, v),
    {
        let ghost s0 = self.entries@;
        let ghost kv = k@;
        match self.position(k.as_str()) {
            Some(i) => {
                self.entries.set(i, (k, v));
                let ghost s1 = self.entries@;
                assert(s1 == s0.update(i as int, s1[i as int]));
                assert forall|a: int, b: int|
                    0 <= a < s1.len() && 0 <= b < s1.len() && a != b implies s1[a].0@ != s1[b].0@ by {
                    if a != i && b != i {
                        assert(s1[a] == s0[a] && s1[b] == s0[b]);
                    } else {
                        assert(s0[i as int].0@ == kv);
                    }
                }
                assert forall|key: Seq<char>|
                    #![auto]
                    entries_map(s1).contains_key(key) == entries_map(s0).insert(
                        kv,
                        s1[i as int].1,
                    ).contains_key(key) by {
                    if key == kv {
                        lemma_entry(s1, i as int);
                    } else if has_key(s0, key) {
                        let j = choose|j: int| 0 <= j < s0.len() && #[trigger] s0[j].0@ == key;
                        assert(j != i);
                        assert(s1[j] == s0[j]);
                    } else if has_key(s1, key) {
                        let j = choose|j: int| 0 <= j < s1.len() && #[trigger] s1[j].0@ == key;
                        assert(s1[j] == s0[j]);
                    }
                }
                assert forall|key: Seq<char>|
                    #![auto]
                    entries_map(s1).contains_key(key) implies entries_map(s1)[key]
                        == entries_map(s0).insert(kv, s1[i as int].1)[key] by {
                    if key == kv {
                        lemma_entry(s1, i as int);
                    } else {
                        let j = choose|j: int| 0 <= j < s1.len() && #[trigger] s1[j].0@ == key;
                        assert(j != i);
                        assert(s1[j] == s0[j]);
                        lemma_entry(s1, j);
                        lemma_entry(s0, j);
                    }
                }
                assert(entries_map(s1) =~= entries_map(s0).insert(kv, s1[i as int].1));
            },
            None => {
                self.entries.push((k, v));
                let ghost s1 = self.entries@;
                assert forall|a: int, b: int|
                    0 <= a < s1.len() && 0 <= b < s1.len() && a != b implies s1[a].0@ != s1[b].0@ by {
                    if a < s0.len() && b < s0.len() {
                        assert(s1[a] == s0[a] && s1[b] == s0[b]);
                    } else if a < s0.len() {
                        assert(s1[a] == s0[a]);
                    } else {
                        assert(s1[b] == s0[b]);
                    }
                }
                let ghost n = s0.len() as int;
                assert forall|key: Seq<char>|
                    #![auto]
                    entries_map(s1).contains_key(key) == entries_map(s0).insert(
                        kv,
                        s1[n].1,
                    ).contains_key(key) by {
                    if key == kv {
                        lemma_entry(s1, n);
                    } else if has_key(s0, key) {
                        let j = choose|j: int| 0 <= j < s0.len() && #[trigger] s0[j].0@ == key;
                        assert(s1[j] == s0[j]);
                    } else if has_key(s1, key) {
                        let j = choose|j: int| 0 <= j < s1.len() && #[trigger] s1[j].0@ == key;
                        assert(s1[j] == s0[j]);
                    }
                }
                assert forall|key: Seq<char>|
                    #![auto]
                    entries_map(s1).contains_key(key) implies entries_map(s1)[key]
                        == entries_map(s0).insert(kv, s1[n].1)[key] by {
                    if key == kv {
                        lemma_entry(s1, n);
                    } else {
                        let j = choose|j: int| 0 <= j < s1.len() && #[trigger] s1[j].0@ == key;
                        assert(s1[j] == s0[j]);
                        lemma_entry(s1, j);
                        lemma_entry(s0, j);
                    }
                }
                assert(entries_map(s1) =~= entries_map(s0).insert(kv, s1[n].1));
            },
        }
    }

    /// Removes the entry stored under `k`, if any.
    pub fn remove(&mut self, k: &str)
        requires
            old(self).wf(),
        ensures
            final(self).wf(),
            final(self)@ == old(self)@.remove(k@),
    {
        let ghost s0 = self.entries@;
        match self.position(k) {
            Some(i) => {
                self.entries.remove(i);
                let ghost s1 = self.entries@;
                let ghost ii = i as int;
                assert forall|a: int| 0 <= a < s1.len() implies #[trigger] s1[a] == (if a < ii {
                    s0[a]
                } else {
                    s0[a + 1]
                }) by {}
                assert forall|a: int, b: int|
                    0 <= a < s1.len() && 0 <= b < s1.len() && a != b implies s1[a].0@ != s1[b].0@ by {
                    let a0 = if a < ii { a } else { a + 1 };
                    let b0 = if b < ii { b } else { b + 1 };
                    assert(s1[a] == s0[a0] && s1[b] == s0[b0]);
                }
                assert forall|key: Seq<char>|
                    #![auto]
                    entries_map(s1).contains_key(key) == entries_map(s0).remove(k@).contains_key(
                        key,
                    ) by {
                    if has_key(s1, key) {
                        let j = choose|j: int| 0 <= j < s1.len() && #[trigger] s1[j].0@ == key;
                        let j0 = if j < ii { j } else { j + 1 };
                        assert(s1[j] == s0[j0]);
                        assert(j0 != ii);
                    }
                    if has_key(s0, key) && key != k@ {
                        let j = choose|j: int| 0 <= j < s0.len() && #[trigger] s0[j].0@ == key;
                        assert(j != ii);
                        let j1 = if j < ii { j } else { j - 1 };
                        assert(s1[j1] == s0[j]);
                    }
                }
                assert forall|key: Seq<char>|
                    #![auto]
                    entries_map(s1).contains_key(key) implies entries_map(s1)[key] == entries_map(
                        s0,
                    ).remove(k@)[key] by {
                    let j = choose|j: int| 0 <= j < s1.len() && #[trigger] s1[j].0@ == key;
                    let j0 = if j < ii { j } else { j + 1 };
                    assert(s1[j] == s0[j0]);
                    lemma_entry(s1, j);
                    lemma_entry(s0, j0);
                }
                assert(entries_map(s1) =~= entries_map(s0).remove(k@));
            },
            None => {
                assert(entries_map(s0) =~= entries_map(s0).remove(k@));
            },
        }
    }
}

} // verus!
