//! A table of rows keyed by text: each key at most once, kept in the order keys first came.
use vstd::prelude::*;

verus! {

/// Rows of one kind, each filed under a text key; a key names at most one row.
#[derive(Debug)]
pub struct RowTable<R> {
    entries: Vec<(String, R)>,
}

impl<R> RowTable<R> {
    /// Every key occurs once.
    #[verifier::type_invariant]
    closed spec fn keys_distinct(self) -> bool {
        forall|i: int, j: int|
            0 <= i < self.entries@.len() && 0 <= j < self.entries@.len() && i != j
                ==> #[trigger] self.entries@[i].0@ != #[trigger] self.entries@[j].0@
    }

    /// The keys, in the order in which they were first inserted.
    pub closed spec fn key_seq(&self) -> Seq<Seq<char>> {
        self.entries@.map_values(|e: (String, R)| e.0@)
    }

    closed spec fn position_of(&self, k: Seq<char>) -> int {
        choose|i: int| 0 <= i < self.entries@.len() && self.entries@[i].0@ == k
    }

    /// The table as a map from key to row.
    pub closed spec fn as_map(&self) -> Map<Seq<char>, R> {
        Map::new(
            |k: Seq<char>| self.key_seq().contains(k),
            |k: Seq<char>| self.entries@[self.position_of(k)].1,
        )
    }

    proof fn lemma_entry(&self, i: int)
        requires
            self.keys_distinct(),
            0 <= i < self.entries@.len(),
        ensures
            self.as_map().contains_key(self.entries@[i].0@),
            self.as_map()[self.entries@[i].0@] == self.entries@[i].1,
            self.key_seq()[i] == self.entries@[i].0@,
    {
        let k = self.entries@[i].0@;
        assert(self.key_seq()[i] == k);
        assert(self.key_seq().contains(k));
        let p = self.position_of(k);
        assert(0 <= p < self.entries@.len() && self.entries@[p].0@ == k);
        assert(p == i);
    }

    proof fn lemma_model(&self)
        requires
            self.keys_distinct(),
        ensures
            self.key_seq().len() == self.entries@.len(),
            self.key_seq().no_duplicates(),
            forall|k: Seq<char>| #[trigger] self.as_map().contains_key(k) <==> self.key_seq().contains(k),
            forall|i: int| 0 <= i < self.entries@.len() ==> #[trigger] self.key_seq()[i] == self.entries@[i].0@,
            forall|i: int| 0 <= i < self.entries@.len() ==> #[trigger] self.as_map()[self.key_seq()[i]] == self.entries@[i].1,
    {
        assert forall|i: int| 0 <= i < self.entries@.len() implies #[trigger] self.as_map()[self.key_seq()[i]] == self.entries@[i].1 by {
            self.lemma_entry(i);
        }
        assert forall|i: int, j: int| 0 <= i < self.key_seq().len() && 0 <= j < self.key_seq().len() && i != j
            implies self.key_seq()[i] != self.key_seq()[j] by {
            assert(self.key_seq()[i] == self.entries@[i].0@);
            assert(self.key_seq()[j] == self.entries@[j].0@);
        }
    }

    /// An empty table.
    pub fn new() -> (t: Self)
        ensures
            t.as_map() == Map::<Seq<char>, R>::empty(),
            t.key_seq() == Seq::<Seq<char>>::empty(),
    {
        let t = RowTable { entries: Vec::new() };
        assert(t.key_seq() =~= Seq::<Seq<char>>::empty());
        assert(t.as_map() =~= Map::<Seq<char>, R>::empty());
        t
    }

    /// The number of rows.
    pub fn len(&self) -> (n: usize)
        ensures
            n == self.key_seq().len(),
            n == self.as_map().dom().len(),
    {
        proof {
            use_type_invariant(self);
            self.lemma_model();
            self.key_seq().unique_seq_to_set();
            assert(self.as_map().dom() =~= self.key_seq().to_set());
        }
        self.entries.len()
    }

    fn find(&self, key: &String) -> (r: Option<usize>)
        ensures
            match r {
                Some(i) => i < self.entries@.len() && self.entries@[i as int].0@ == key@,
                None => !self.key_seq().contains(key@),
            },
    {
        proof {
            use_type_invariant(self);
            self.lemma_model();
        }
        let mut i: usize = 0;
        while i < self.entries.len()
            invariant
                i <= self.entries@.len(),
                self.key_seq().len() == self.entries@.len(),
                forall|j: int| 0 <= j < self.entries@.len() ==> #[trigger] self.key_seq()[j] == self.entries@[j].0@,
                forall|j: int| 0 <= j < i ==> self.entries@[j].0@ != key@,
            decreases self.entries@.len() - i,
        {
            if self.entries[i].0.eq(key) {
                return Some(i);
            }
            i = i + 1;
        }
        proof {
            if self.key_seq().contains(key@) {
                let j = choose|j: int| 0 <= j < self.key_seq().len() && self.key_seq()[j] == key@;
                assert(self.entries@[j].0@ == key@);
            }
        }
        None
    }

    /// The row filed under `key`, if any.
    pub fn get(&self, key: &str) -> (r: Option<&R>)
        ensures
            r is Some <==> self.as_map().contains_key(key@),
            r matches Some(x) ==> *x == self.as_map()[key@],
    {
        proof {
            use_type_invariant(self);
            self.lemma_model();
        }
        let k = String::from_str(key);
        match self.find(&k) {
            Some(i) => {
                proof {
                    use_type_invariant(self);
                    self.lemma_entry(i as int);
                }
                Some(&self.entries[i].1)
            },
            None => None,
        }
    }

    /// Files `row` under `key`, replacing the row that was filed there. A new key goes last.
    pub fn insert(&mut self, key: String, row: R)
        ensures
            final(self).as_map() == old(self).as_map().insert(key@, row),
            old(self).key_seq().contains(key@) ==> final(self).key_seq() == old(self).key_seq(),
            !old(self).key_seq().contains(key@) ==> final(self).key_seq() == old(self).key_seq().push(key@),
    {
        proof {
            use_type_invariant(&*self);
            self.lemma_model();
        }
        let ghost old_t = *self;
        match self.find(&key) {
            Some(i) => {
                let ghost k = key@;
                let mut entries: Vec<(String, R)> = Vec::new();
                std::mem::swap(&mut entries, &mut self.entries);
                entries.set(i, (key, row));
                self.entries = entries;
                proof {
                    use_type_invariant(&*self);
                    self.lemma_model();
                    assert(self.key_seq() =~= old_t.key_seq());
                    old_t.lemma_entry(i as int);
                    assert(self.as_map().dom() =~= old_t.as_map().insert(k, row).dom());
                    assert forall|k2: Seq<char>| #[trigger] self.as_map().contains_key(k2)
                        implies self.as_map()[k2] == old_t.as_map().insert(k, row)[k2] by {
                        let j = choose|j: int| 0 <= j < self.key_seq().len() && self.key_seq()[j] == k2;
                        self.lemma_entry(j);
                        if j != i {
                            old_t.lemma_entry(j);
                        }
                    }
                    assert(self.as_map() =~= old_t.as_map().insert(k, row));
                }
            },
            None => {
                let ghost k = key@;
                proof {
                    assert forall|j: int| 0 <= j < old_t.entries@.len() implies old_t.entries@[j].0@ != k by {
                        assert(old_t.key_seq()[j] == old_t.entries@[j].0@);
                    }
                }
                let mut entries: Vec<(String, R)> = Vec::new();
                std::mem::swap(&mut entries, &mut self.entries);
                entries.push((key, row));
                self.entries = entries;
                proof {
                    use_type_invariant(&*self);
                    self.lemma_model();
                    assert(self.key_seq() =~= old_t.key_seq().push(k));
                    assert forall|k2: Seq<char>| #[trigger] old_t.as_map().insert(k, row).contains_key(k2)
                        implies self.as_map().contains_key(k2) by {
                        if k2 != k {
                            let j = choose|j: int| 0 <= j < old_t.key_seq().len() && old_t.key_seq()[j] == k2;
                            assert(self.key_seq()[j] == k2);
                        } else {
                            assert(self.key_seq()[old_t.key_seq().len() as int] == k);
                        }
                    }
                    assert(self.as_map().dom() =~= old_t.as_map().insert(k, row).dom());
                    assert forall|k2: Seq<char>| #[trigger] self.as_map().contains_key(k2)
                        implies self.as_map()[k2] == old_t.as_map().insert(k, row)[k2] by {
                        let j = choose|j: int| 0 <= j < self.key_seq().len() && self.key_seq()[j] == k2;
                        self.lemma_entry(j);
                        if j < old_t.entries@.len() {
                            old_t.lemma_entry(j);
                        }
                    }
                    assert(self.as_map() =~= old_t.as_map().insert(k, row));
                }
            },
        }
    }

    /// Takes out the row filed under `key`, if any.
    pub fn remove(&mut self, key: &str) -> (r: Option<R>)
        ensures
            final(self).as_map() == old(self).as_map().remove(key@),
            r is Some <==> old(self).as_map().contains_key(key@),
            r matches Some(x) ==> x == old(self).as_map()[key@],
    {
        proof {
            use_type_invariant(&*self);
            self.lemma_model();
        }
        let ghost old_t = *self;
        let k = String::from_str(key);
        match self.find(&k) {
            Some(i) => {
                proof {
                    old_t.lemma_entry(i as int);
                }
                let mut entries: Vec<(String, R)> = Vec::new();
                std::mem::swap(&mut entries, &mut self.entries);
                let (_, row) = entries.remove(i);
                proof {
                    assert forall|a: int, b: int|
                        0 <= a < entries@.len() && 0 <= b < entries@.len() && a != b
                            implies #[trigger] entries@[a].0@ != #[trigger] entries@[b].0@ by {
                        let oa = if a < i { a } else { a + 1 };
                        let ob = if b < i { b } else { b + 1 };
                        assert(entries@[a] == old_t.entries@[oa]);
                        assert(entries@[b] == old_t.entries@[ob]);
                    }
                }
                self.entries = entries;
                proof {
                    use_type_invariant(&*self);
                    self.lemma_model();
                    assert forall|k2: Seq<char>| #[trigger] self.as_map().contains_key(k2)
                        <==> old_t.as_map().remove(key@).contains_key(k2) by {
                        if self.as_map().contains_key(k2) {
                            let j = choose|j: int| 0 <= j < self.key_seq().len() && self.key_seq()[j] == k2;
                            let oj = if j < i { j } else { j + 1 };
                            assert(self.entries@[j] == old_t.entries@[oj]);
                            old_t.lemma_entry(oj);
                        }
                        if old_t.as_map().remove(key@).contains_key(k2) {
                            let j = choose|j: int| 0 <= j < old_t.key_seq().len() && old_t.key_seq()[j] == k2;
                            assert(j != i);
                            let nj = if j < i { j } else { j - 1 };
                            assert(self.entries@[nj] == old_t.entries@[j]);
                            assert(self.key_seq()[nj] == k2);
                        }
                    }
                    assert forall|k2: Seq<char>| #[trigger] self.as_map().contains_key(k2)
                        implies self.as_map()[k2] == old_t.as_map()[k2] by {
                        let j = choose|j: int| 0 <= j < self.key_seq().len() && self.key_seq()[j] == k2;
                        let oj = if j < i { j } else { j + 1 };
                        assert(self.entries@[j] == old_t.entries@[oj]);
                        self.lemma_entry(j);
                        old_t.lemma_entry(oj);
                    }
                    assert(self.as_map() =~= old_t.as_map().remove(key@));
                }
                Some(row)
            },
            None => {
                proof {
                    assert(old_t.as_map().remove(key@) =~= old_t.as_map());
                }
                None
            },
        }
    }

    /// The keys, in key order.
    pub fn keys(&self) -> (v: Vec<String>)
        ensures
            v@.len() == self.key_seq().len(),
            forall|i: int| 0 <= i < v@.len() ==> #[trigger] v@[i]@ == self.key_seq()[i],
            self.key_seq().no_duplicates(),
            forall|k: Seq<char>| #[trigger] self.as_map().contains_key(k) <==> self.key_seq().contains(k),
    {
        proof {
            use_type_invariant(self);
            self.lemma_model();
        }
        let mut v: Vec<String> = Vec::new();
        let mut i: usize = 0;
        while i < self.entries.len()
            invariant
                i <= self.entries@.len(),
                v@.len() == i,
                self.key_seq().len() == self.entries@.len(),
                forall|j: int| 0 <= j < self.entries@.len() ==> #[trigger] self.key_seq()[j] == self.entries@[j].0@,
                forall|j: int| 0 <= j < i ==> #[trigger] v@[j]@ == self.key_seq()[j],
            decreases self.entries@.len() - i,
        {
            v.push(self.entries[i].0.clone());
            i = i + 1;
        }
        v
    }

    /// Whether a row is filed under `key`.
    pub fn contains_key(&self, key: &str) -> (b: bool)
        ensures
            b == self.as_map().contains_key(key@),
    {
        match self.get(key) {
            Some(_) => true,
            None => false,
        }
    }

    /// All rows, in key order: the row at place `i` is the one filed under `key_seq()[i]`.
    pub fn rows(&self) -> (v: Vec<&R>)
        ensures
            v@.len() == self.key_seq().len(),
            forall|i: int| 0 <= i < v@.len() ==> *v@[i] == #[trigger] self.as_map()[self.key_seq()[i]],
            self.key_seq().no_duplicates(),
            forall|k: Seq<char>| #[trigger] self.as_map().contains_key(k) <==> self.key_seq().contains(k),
    {
        proof {
            use_type_invariant(self);
            self.lemma_model();
        }
        let mut v: Vec<&R> = Vec::new();
        let mut i: usize = 0;
        while i < self.entries.len()
            invariant
                i <= self.entries@.len(),
                v@.len() == i,
                forall|j: int| 0 <= j < i ==> *v@[j] == self.entries@[j].1,
            decreases self.entries@.len() - i,
        {
            v.push(&self.entries[i].1);
            i = i + 1;
        }
        v
    }
}

} // verus!
