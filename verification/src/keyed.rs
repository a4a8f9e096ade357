//! A map keyed by text, kept as a list of distinct keys with their values.
use vstd::prelude::*;

verus! {

spec fn distinct_keys<V>(entries: Seq<(String, V)>) -> bool {
    forall|i: int, j: int|
        0 <= i < j < entries.len() ==> #[trigger] entries[i].0@ != #[trigger] entries[j].0@
}

spec fn slot_in<V>(entries: Seq<(String, V)>, key: Seq<char>) -> int {
    choose|i: int| 0 <= i < entries.len() && entries[i].0@ == key
}

spec fn map_of<V>(entries: Seq<(String, V)>) -> Map<Seq<char>, V> {
    Map::new(
        |k: Seq<char>| exists|i: int| 0 <= i < entries.len() && entries[i].0@ == k,
        |k: Seq<char>| entries[slot_in(entries, k)].1,
    )
}

proof fn lemma_slot_in<V>(entries: Seq<(String, V)>, i: int)
    requires
        distinct_keys(entries),
        0 <= i < entries.len(),
    ensures
        map_of(entries).dom().contains(entries[i].0@),
        map_of(entries)[entries[i].0@] == entries[i].1,
{
    let k = entries[i].0@;
    assert(map_of(entries).dom().contains(k));
    let j = slot_in(entries, k);
    if j != i {
        if i < j {
            assert(entries[i].0@ != entries[j].0@);
        } else {
            assert(entries[j].0@ != entries[i].0@);
        }
    }
}

/// A map from text keys to values; a key occurs at most once.
///
/// The kernel's caches and contract registry are keyed by text ids. vstd's specification of
/// `BTreeMap` promises its facts only when `key_obeys_cmp_spec` holds for the key type, and
/// vstd establishes that for no `String` ordering, so a `BTreeMap<String, _>` would give the
/// kernel's contracts nothing to stand on. This map keeps its entries in a vector of distinct
/// keys instead and is specified through the same kind of view, a `Map` from each key's text to
/// its value; the order of entries is not part of that view, and no operation exposes it.
#[derive(Debug)]
pub struct KeyedMap<V> {
    entries: Vec<(String, V)>,
}

impl<V> KeyedMap<V> {
    #[verifier::type_invariant]
    spec fn keys_distinct(self) -> bool {
        forall|i: int, j: int|
            0 <= i < j < self.entries@.len() ==> #[trigger] self.entries@[i].0@
                != #[trigger] self.entries@[j].0@
    }

    /// The keys present and the value stored under each.
    pub closed spec fn view(&self) -> Map<Seq<char>, V> {
        map_of(self.entries@)
    }

    proof fn lemma_slot(self, i: int)
        requires
            self.keys_distinct(),
            0 <= i < self.entries@.len(),
        ensures
            self@.dom().contains(self.entries@[i].0@),
            self@[self.entries@[i].0@] == self.entries@[i].1,
    {
        lemma_slot_in(self.entries@, i);
    }

    pub fn new() -> (r: Self)
        ensures
            r@ == Map::<Seq<char>, V>::empty(),
    {
        let r = KeyedMap { entries: Vec::new() };
        assert(r@ =~= Map::<Seq<char>, V>::empty());
        r
    }

    /// The position of `key`, if present.
    fn find(&self, key: &String) -> (r: Option<usize>)
        ensures
            r matches Some(i) ==> i < self.entries@.len() && self.entries@[i as int].0@ == key@,
            r is None ==> forall|i: int| 0 <= i < self.entries@.len() ==> self.entries@[i].0@ != key@,
    {
        let mut i: usize = 0;
        while i < self.entries.len()
            invariant
                i <= self.entries@.len(),
                forall|j: int| 0 <= j < i ==> self.entries@[j].0@ != key@,
            decreases self.entries@.len() - i,
        {
            if self.entries[i].0 == *key {
                return Some(i);
            }
            i = i + 1;
        }
        None
    }

    pub fn len(&self) -> (r: usize)
        ensures
            r == self@.len(),
    {
        proof {
            use_type_invariant(self);
            self.lemma_len();
        }
        self.entries.len()
    }

    proof fn lemma_len(self)
        requires
            self.keys_distinct(),
        ensures
            self@.dom().finite(),
            self@.len() == self.entries@.len(),
        decreases self.entries@.len(),
    {
        let keys = self.entries@.map_values(|e: (String, V)| e.0@);
        assert forall|i: int, j: int| 0 <= i < keys.len() && 0 <= j < keys.len() && i != j implies keys[i]
            != keys[j] by {
            if i < j {
                assert(self.entries@[i].0@ != self.entries@[j].0@);
            } else {
                assert(self.entries@[j].0@ != self.entries@[i].0@);
            }
        }
        assert(keys.no_duplicates());
        keys.unique_seq_to_set();
        assert(self@.dom() =~= keys.to_set()) by {
            assert forall|k: Seq<char>| self@.dom().contains(k) implies keys.to_set().contains(k) by {
                let i = choose|i: int| 0 <= i < self.entries@.len() && self.entries@[i].0@ == k;
                assert(keys[i] == k);
            }
            assert forall|k: Seq<char>| keys.to_set().contains(k) implies self@.dom().contains(k) by {
                let i = choose|i: int| 0 <= i < keys.len() && keys[i] == k;
                assert(self.entries@[i].0@ == k);
            }
        }
    }

    pub fn contains_key(&self, key: &str) -> (r: bool)
        ensures
            r == self@.dom().contains(key@),
    {
        let k = String::from_str(key);
        match self.find(&k) {
            Some(i) => {
                proof {
                    use_type_invariant(self);
                    self.lemma_slot(i as int);
                }
                true
            },
            None => false,
        }
    }

    pub fn get(&self, key: &str) -> (r: Option<&V>)
        ensures
            self@.dom().contains(key@) ==> r == Some(&self@[key@]),
            !self@.dom().contains(key@) ==> r is None,
    {
        let k = String::from_str(key);
        match self.find(&k) {
            Some(i) => {
                proof {
                    use_type_invariant(self);
                    self.lemma_slot(i as int);
                }
                Some(&self.entries[i].1)
            },
            None => None,
        }
    }

    /// Stores `value` under `key`, replacing what was there.
    pub fn insert(&mut self, key: String, value: V)
        ensures
            final(self)@ == old(self)@.insert(key@, value),
            final(self)@.dom() == old(self)@.dom().insert(key@),
            final(self)@[key@] == value,
            forall|k: Seq<char>|
                k != key@ && #[trigger] old(self)@.dom().contains(k) ==> final(self)@[k] == old(self)@[k],
    {
        proof {
            use_type_invariant(&*self);
        }
        let ghost before = self@;
        let ghost k = key@;
        let found = self.find(&key);
        let mut entries: Vec<(String, V)> = Vec::new();
        std::mem::swap(&mut entries, &mut self.entries);
        let ghost old_entries = entries@;
        match found {
            Some(i) => {
                entries.set(i, (key, value));
            },
            None => {
                entries.push((key, value));
            },
        }
        let ghost new_entries = entries@;
        assert forall|i: int, j: int| 0 <= i < j < new_entries.len() implies #[trigger] new_entries[i].0@
            != #[trigger] new_entries[j].0@ by {
            if i < old_entries.len() && j < old_entries.len() {
                if found is Some && (i == found->0 || j == found->0) {
                    let f = found->0 as int;
                    if i == f {
                        if f < j {
                            assert(old_entries[f].0@ != old_entries[j].0@);
                        }
                    } else {
                        assert(old_entries[i].0@ != old_entries[f].0@);
                    }
                } else {
                    assert(old_entries[i].0@ != old_entries[j].0@);
                }
            }
        }
        self.entries = entries;
        proof {
            let m = self@;
            assert forall|q: Seq<char>| #[trigger] m.dom().contains(q) == before.insert(k, value).dom().contains(q) by {
                if q != k && before.dom().contains(q) {
                    let i = choose|i: int| 0 <= i < old_entries.len() && old_entries[i].0@ == q;
                    assert(new_entries[i].0@ == q);
                }
                if m.dom().contains(q) && q != k {
                    let i = choose|i: int| 0 <= i < new_entries.len() && new_entries[i].0@ == q;
                    assert(old_entries[i].0@ == q);
                }
                if q == k {
                    match found {
                        Some(f) => assert(new_entries[f as int].0@ == k),
                        None => assert(new_entries[old_entries.len() as int].0@ == k),
                    }
                }
            }
            assert forall|q: Seq<char>| #[trigger] m.dom().contains(q) implies m[q] == before.insert(k, value)[q] by {
                let i = choose|i: int| 0 <= i < new_entries.len() && new_entries[i].0@ == q;
                self.lemma_slot(i);
                if q != k {
                    assert(old_entries[i].0@ == q);
                    let j = slot_in(old_entries, q);
                    assert(before[q] == old_entries[j].1);
                    if j != i {
                        if i < j {
                            assert(old_entries[i].0@ != old_entries[j].0@);
                        } else {
                            assert(old_entries[j].0@ != old_entries[i].0@);
                        }
                    }
                }
            }
            assert(m =~= before.insert(k, value));
        }
    }

    /// Takes the value stored under `key` out of the map.
    pub fn remove(&mut self, key: &str) -> (r: Option<V>)
        ensures
            final(self)@ == old(self)@.remove(key@),
            old(self)@.dom().contains(key@) ==> r == Some(old(self)@[key@]),
            !old(self)@.dom().contains(key@) ==> r is None,
    {
        proof {
            use_type_invariant(&*self);
        }
        let ghost before = self@;
        let k = String::from_str(key);
        match self.find(&k) {
            None => {
                assert(self@ =~= before.remove(key@));
                None
            },
            Some(i) => {
                proof {
                    self.lemma_slot(i as int);
                }
                let mut entries: Vec<(String, V)> = Vec::new();
                std::mem::swap(&mut entries, &mut self.entries);
                let ghost old_entries = entries@;
                let (_, value) = entries.remove(i);
                let ghost new_entries = entries@;
                assert forall|a: int, b: int| 0 <= a < b < new_entries.len() implies #[trigger] new_entries[a].0@
                    != #[trigger] new_entries[b].0@ by {
                    let oa = if a < i { a } else { a + 1 };
                    let ob = if b < i { b } else { b + 1 };
                    assert(new_entries[a] == old_entries[oa]);
                    assert(new_entries[b] == old_entries[ob]);
                    assert(old_entries[oa].0@ != old_entries[ob].0@);
                }
                self.entries = entries;
                proof {
                    let m = self@;
                    let target = before.remove(key@);
                    assert forall|q: Seq<char>| #[trigger] m.dom().contains(q) == target.dom().contains(q) by {
                        if target.dom().contains(q) {
                            let j = choose|j: int| 0 <= j < old_entries.len() && old_entries[j].0@ == q;
                            assert(j != i);
                            let nj = if j < i { j } else { j - 1 };
                            assert(new_entries[nj] == old_entries[j]);
                        }
                        if m.dom().contains(q) {
                            let j = choose|j: int| 0 <= j < new_entries.len() && new_entries[j].0@ == q;
                            let oj = if j < i { j } else { j + 1 };
                            assert(new_entries[j] == old_entries[oj]);
                            if q == key@ {
                                if oj < i {
                                    assert(old_entries[oj].0@ != old_entries[i as int].0@);
                                } else {
                                    assert(old_entries[i as int].0@ != old_entries[oj].0@);
                                }
                            }
                            lemma_slot_in(old_entries, oj);
                        }
                    }
                    assert forall|q: Seq<char>| #[trigger] m.dom().contains(q) implies m[q] == target[q] by {
                        let j = choose|j: int| 0 <= j < new_entries.len() && new_entries[j].0@ == q;
                        self.lemma_slot(j);
                        let oj = if j < i { j } else { j + 1 };
                        assert(new_entries[j] == old_entries[oj]);
                        lemma_slot_in(old_entries, oj);
                    }
                    assert(m =~= target);
                }
                Some(value)
            },
        }
    }
}

impl<V> View for KeyedMap<V> {
    type V = Map<Seq<char>, V>;

    closed spec fn view(&self) -> Map<Seq<char>, V> {
        self.view()
    }
}

} // verus!
