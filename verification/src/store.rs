use vstd::prelude::*;

verus! {

/// The data that the connection's hooks have reported, keyed by the
/// channel id that each report names. A later report under the same id
/// replaces the earlier one.
pub struct DataStore<V> {
    entries: Vec<(String, V)>,
}

impl<V> DataStore<V> {
    /// The ids in the order in which they were first stored.
    pub closed spec fn keys(&self) -> Seq<Seq<char>> {
        self.entries@.map_values(|e: (String, V)| e.0@)
    }

    /// No id is stored twice.
    #[verifier::type_invariant]
    spec fn wf(&self) -> bool {
        forall|i: int, j: int|
            0 <= i < j < self.entries@.len() ==> #[trigger] self.entries@[i].0@ != #[trigger] self.entries@[j].0@
    }

    spec fn has_at(&self, k: Seq<char>, i: int) -> bool {
        0 <= i < self.entries@.len() && self.entries@[i].0@ == k
    }

    proof fn lemma_at(&self, i: int)
        requires
            self.wf(),
            0 <= i < self.entries@.len(),
        ensures
            self@.contains_key(self.entries@[i].0@),
            self@[self.entries@[i].0@] == self.entries@[i].1,
    {
        let k = self.entries@[i].0@;
        assert(self.has_at(k, i));
        let j = choose|j: int| self.has_at(k, j);
        assert(self.has_at(k, j));
        if j != i {
            if i < j {
                assert(self.entries@[i].0@ != self.entries@[j].0@);
            } else {
                assert(self.entries@[j].0@ != self.entries@[i].0@);
            }
        }
    }

    /// An empty store.
    pub fn new() -> (s: Self)
        ensures
            s@ == Map::<Seq<char>, V>::empty(),
    {
        let s = DataStore { entries: Vec::new() };
        assert(s@ =~= Map::<Seq<char>, V>::empty());
        s
    }

    /// The number of ids stored.
    pub fn len(&self) -> (n: usize)
        ensures
            n == self@.len(),
    {
        proof {
            use_type_invariant(self);
            self.lemma_len();
        }
        self.entries.len()
    }

    proof fn lemma_len(&self)
        requires
            self.wf(),
        ensures
            self@.dom().finite(),
            self@.len() == self.entries@.len(),
    {
        let ks = self.keys();
        assert forall|k: Seq<char>| self@.dom().contains(k) <==> ks.contains(k) by {
            if self@.dom().contains(k) {
                let i = choose|i: int| self.has_at(k, i);
                assert(ks[i] == k);
            }
            if ks.contains(k) {
                let i = choose|i: int| 0 <= i < ks.len() && ks[i] == k;
                assert(self.has_at(k, i));
            }
        }
        assert(self@.dom() =~= ks.to_set());
        assert(ks.no_duplicates()) by {
            assert forall|i: int, j: int| 0 <= i < ks.len() && 0 <= j < ks.len() && i != j implies ks[i] != ks[j] by {
                if i < j {
                    assert(self.entries@[i].0@ != self.entries@[j].0@);
                } else {
                    assert(self.entries@[j].0@ != self.entries@[i].0@);
                }
            }
        }
        ks.unique_seq_to_set();
    }

    /// The position of `key` among the stored ids, if it is stored.
    fn position(&self, key: &String) -> (r: Option<usize>)
        ensures
            match r {
                Some(i) => i < self.entries@.len() && self.entries@[i as int].0@ == key@,
                None => !self@.contains_key(key@),
            },
    {
        proof {
            use_type_invariant(self);
        }
        let mut i: usize = 0;
        while i < self.entries.len()
            invariant
                i <= self.entries@.len(),
                forall|j: int| 0 <= j < i ==> self.entries@[j].0@ != key@,
            decreases self.entries@.len() - i,
        {
            if self.entries[i].0 == *key {
                return Some(i);
            }
            i = i + 1;
        }
        proof {
            if self@.contains_key(key@) {
                let j = choose|j: int| self.has_at(key@, j);
                assert(self.has_at(key@, j));
            }
        }
        None
    }

    /// The data stored under `key`.
    pub fn get(&self, key: &String) -> (r: Option<&V>)
        ensures
            r is Some <==> self@.contains_key(key@),
            r matches Some(v) ==> *v == self@[key@],
    {
        proof {
            use_type_invariant(self);
        }
        match self.position(key) {
            Some(i) => {
                proof {
                    self.lemma_at(i as int);
                }
                Some(&self.entries[i].1)
            },
            None => None,
        }
    }

    /// Stores `value` under `key`, replacing what was stored there.
    pub fn insert(&mut self, key: String, value: V)
        ensures
            final(self)@ == old(self)@.insert(key@, value),
    {
        proof {
            use_type_invariant(&*self);
        }
        let ghost k = key@;
        let ghost v = value;
        let ghost before = *self;
        let pos = self.position(&key);
        let mut entries: Vec<(String, V)> = Vec::new();
        std::mem::swap(&mut entries, &mut self.entries);
        assert(entries@ == before.entries@);
        let ghost idx: int;
        match pos {
            Some(i) => {
                entries.set(i, (key, value));
                proof {
                    idx = i as int;
                    assert forall|a: int, b: int| 0 <= a < b < entries@.len() implies
                        #[trigger] entries@[a].0@ != #[trigger] entries@[b].0@ by {
                        assert(before.entries@[a].0@ != before.entries@[b].0@);
                    }
                }
            },
            None => {
                entries.push((key, value));
                proof {
                    let n = before.entries@.len() as int;
                    idx = n;
                    assert forall|a: int, b: int| 0 <= a < b < entries@.len() implies
                        #[trigger] entries@[a].0@ != #[trigger] entries@[b].0@ by {
                        if b < n {
                            assert(before.entries@[a].0@ != before.entries@[b].0@);
                        } else {
                            assert(before.has_at(entries@[a].0@, a));
                        }
                    }
                }
            },
        }
        self.entries = entries;
        proof {
            self.lemma_update(before, idx, k, v);
        }
    }

    proof fn lemma_update(&self, before: Self, i: int, k: Seq<char>, v: V)
        requires
            before.wf(),
            self.wf(),
            0 <= i < self.entries@.len(),
            self.entries@[i].0@ == k,
            self.entries@[i].1 == v,
            self.entries@.len() == before.entries@.len() || self.entries@.len() == before.entries@.len() + 1,
            self.entries@.len() == before.entries@.len() + 1 ==> i == before.entries@.len(),
            forall|j: int| 0 <= j < self.entries@.len() && j != i ==> self.entries@[j] == before.entries@[j],
            self.entries@.len() == before.entries@.len() ==> before.entries@[i].0@ == k,
        ensures
            self@ == before@.insert(k, v),
    {
        assert forall|key: Seq<char>| #[trigger] self@.contains_key(key) <==> before@.insert(k, v).contains_key(key) by {
            if self@.contains_key(key) {
                let j = choose|j: int| self.has_at(key, j);
                if j != i {
                    assert(before.has_at(key, j));
                }
            }
            if before@.contains_key(key) {
                let j = choose|j: int| before.has_at(key, j);
                if j != i {
                    assert(self.has_at(key, j));
                }
            }
            if key == k {
                assert(self.has_at(key, i));
            }
        }
        assert forall|key: Seq<char>| #[trigger] self@.contains_key(key) implies self@[key] == before@.insert(k, v)[key] by {
            let j = choose|j: int| self.has_at(key, j);
            self.lemma_at(j);
            if key != k {
                assert(j != i);
                assert(before.has_at(key, j));
                before.lemma_at(j);
            }
        }
        assert(self@ =~= before@.insert(k, v));
    }
}

/// A read gives back the last write under its id, and a write under one id
/// leaves what is stored under every other id as it was.
pub proof fn law_read_after_write<V>(
    before: DataStore<V>,
    after: DataStore<V>,
    id: Seq<char>,
    value: V,
    other: Seq<char>,
)
    requires
        after@ == before@.insert(id, value),
    ensures
        after@.contains_key(id),
        after@[id] == value,
        other != id ==> (after@.contains_key(other) <==> before@.contains_key(other)),
        other != id && before@.contains_key(other) ==> after@[other] == before@[other],
{
}

impl<V> View for DataStore<V> {
    type V = Map<Seq<char>, V>;

    closed spec fn view(&self) -> Map<Seq<char>, V> {
        Map::new(
            |k: Seq<char>| exists|i: int| self.has_at(k, i),
            |k: Seq<char>| self.entries@[choose|i: int| self.has_at(k, i)].1,
        )
    }
}

} // verus!
