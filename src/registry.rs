use vstd::prelude::*;

verus! {

/// A map from device identity to a handle, with at most one entry per
/// identity.
pub struct Registry<H> {
    entries: Vec<(String, H)>,
}

impl<H> Registry<H> {
    closed spec fn has(&self, k: Seq<char>) -> bool {
        exists|i: int| 0 <= i < self.entries@.len() && self.entries@[i].0@ == k
    }

    closed spec fn index_of(&self, k: Seq<char>) -> int {
        choose|i: int| 0 <= i < self.entries@.len() && self.entries@[i].0@ == k
    }

    /// Identities are pairwise distinct.
    pub closed spec fn wf(&self) -> bool {
        forall|i: int, j: int|
            0 <= i < self.entries@.len() && 0 <= j < self.entries@.len() && i != j
                ==> self.entries@[i].0@ != self.entries@[j].0@
    }

    pub closed spec fn view(&self) -> Map<Seq<char>, H> {
        Map::new(|k: Seq<char>| self.has(k), |k: Seq<char>| self.entries@[self.index_of(k)].1)
    }

    proof fn lemma_index(&self, k: Seq<char>, i: int)
        requires
            self.wf(),
            0 <= i < self.entries@.len(),
            self.entries@[i].0@ == k,
        ensures
            self.has(k),
            self.index_of(k) == i,
            self.view().contains_key(k),
            self.view()[k] == self.entries@[i].1,
    {
        assert(self.has(k));
        let j = self.index_of(k);
        assert(self.entries@[j].0@ == k);
    }

    /// An empty registry.
    pub fn new() -> (r: Registry<H>)
        ensures
            r.wf(),
            r.view() == Map::<Seq<char>, H>::empty(),
    {
        let r = Registry { entries: Vec::new() };
        assert(r.view() =~= Map::<Seq<char>, H>::empty());
        r
    }

    fn find(&self, id: &String) -> (r: Option<usize>)
        requires
            self.wf(),
        ensures
            r is Some <==> self.view().contains_key(id@),
            r matches Some(i) ==> i < self.entries@.len() && self.entries@[i as int].0@ == id@
                && self.index_of(id@) == i,
    {
        let mut i: usize = 0;
        while i < self.entries.len()
            invariant
                self.wf(),
                i <= self.entries@.len(),
                forall|j: int| 0 <= j < i ==> self.entries@[j].0@ != id@,
            decreases self.entries@.len() - i,
        {
            if self.entries[i].0 == *id {
                proof {
                    self.lemma_index(id@, i as int);
                }
                return Some(i);
            }
            i = i + 1;
        }
        None
    }

    /// Whether `id` has an entry.
    pub fn contains(&self, id: &String) -> (r: bool)
        requires
            self.wf(),
        ensures
            r == self.view().contains_key(id@),
    {
        self.find(id).is_some()
    }

    /// The handle registered under `id`.
    pub fn get(&self, id: &String) -> (r: Option<&H>)
        requires
            self.wf(),
        ensures
            r is Some <==> self.view().contains_key(id@),
            r matches Some(h) ==> *h == self.view()[id@],
    {
        match self.find(id) {
            Some(i) => Some(&self.entries[i].1),
            None => None,
        }
    }

    /// Number of entries.
    pub fn len(&self) -> (r: usize)
        requires
            self.wf(),
        ensures
            r == self.view().dom().len(),
    {
        proof {
            self.lemma_dom_len();
        }
        self.entries.len()
    }

    proof fn lemma_dom_len(&self)
        requires
            self.wf(),
        ensures
            self.view().dom().len() == self.entries@.len(),
            self.view().dom().finite(),
        decreases self.entries@.len(),
    {
        let keys = self.entries@.map_values(|e: (String, H)| e.0@);
        assert forall|k: Seq<char>| self.view().dom().contains(k) <==> keys.to_set().contains(k) by {
            if self.has(k) {
                let j = self.index_of(k);
                assert(keys[j] == k);
            }
            if keys.contains(k) {
                let j = choose|j: int| 0 <= j < keys.len() && keys[j] == k;
                assert(self.entries@[j].0@ == k);
            }
        }
        assert(self.view().dom() =~= keys.to_set());
        assert forall|i: int, j: int| 0 <= i < j < keys.len() implies keys[i] != keys[j] by {}
        assert(keys.no_duplicates());
        keys.unique_seq_to_set();
    }

    /// Removes the entry of `id` and returns its handle.
    pub fn remove(&mut self, id: &String) -> (r: Option<H>)
        requires
            old(self).wf(),
        ensures
            final(self).wf(),
            final(self).view() == old(self).view().remove(id@),
            r is Some <==> old(self).view().contains_key(id@),
            r matches Some(h) ==> h == old(self).view()[id@],
    {
        match self.find(id) {
            Some(i) => {
                let ghost before = *self;
                let (_, h) = self.entries.remove(i);
                proof {
                    assert forall|a: int, b: int|
                        0 <= a < self.entries@.len() && 0 <= b < self.entries@.len() && a != b
                            implies self.entries@[a].0@ != self.entries@[b].0@ by {
                        let a0 = if a < i { a } else { a + 1 };
                        let b0 = if b < i { b } else { b + 1 };
                        assert(self.entries@[a] == before.entries@[a0]);
                        assert(self.entries@[b] == before.entries@[b0]);
                    }
                    assert forall|k: Seq<char>| #[trigger] self.has(k) == (before.has(k) && k != id@) by {
                        if self.has(k) {
                            let j = self.index_of(k);
                            let j0 = if j < i { j } else { j + 1 };
                            assert(self.entries@[j] == before.entries@[j0]);
                        }
                        if before.has(k) && k != id@ {
                            let j0 = before.index_of(k);
                            assert(j0 != i);
                            let j = if j0 < i { j0 } else { j0 - 1 };
                            assert(self.entries@[j] == before.entries@[j0]);
                        }
                    }
                    assert forall|k: Seq<char>| self.has(k) implies self.view()[k] == before.view()[k] by {
                        let j = self.index_of(k);
                        let j0 = if j < i { j } else { j + 1 };
                        assert(self.entries@[j] == before.entries@[j0]);
                        before.lemma_index(k, j0);
                    }
                    assert(self.view() =~= before.view().remove(id@));
                }
                Some(h)
            },
            None => {
                assert(self.view() =~= self.view().remove(id@));
                None
            },
        }
    }

    /// Registers `h` under `id`, replacing and returning any earlier handle.
    pub fn insert(&mut self, id: String, h: H) -> (r: Option<H>)
        requires
            old(self).wf(),
        ensures
            final(self).wf(),
            final(self).view() == old(self).view().insert(id@, h),
            r is Some <==> old(self).view().contains_key(id@),
            r matches Some(p) ==> p == old(self).view()[id@],
    {
        let previous = self.remove(&id);
        let ghost before = *self;
        let ghost k_new = id@;
        self.entries.push((id, h));
        proof {
            let n = before.entries@.len();
            assert(self.entries@[n as int].0@ == k_new);
            assert forall|a: int, b: int|
                0 <= a < self.entries@.len() && 0 <= b < self.entries@.len() && a != b
                    implies self.entries@[a].0@ != self.entries@[b].0@ by {
                if a < n && b < n {
                    assert(self.entries@[a] == before.entries@[a]);
                    assert(self.entries@[b] == before.entries@[b]);
                } else if a < n {
                    assert(self.entries@[a] == before.entries@[a]);
                    assert(!before.view().contains_key(k_new));
                    if self.entries@[a].0@ == k_new {
                        assert(before.has(k_new));
                    }
                } else {
                    assert(a == n);
                    assert(self.entries@[b] == before.entries@[b]);
                    assert(!before.view().contains_key(k_new));
                    if self.entries@[b].0@ == k_new {
                        assert(before.has(k_new));
                    }
                }
            }
            assert forall|k: Seq<char>| #[trigger] self.has(k) == (before.has(k) || k == k_new) by {
                if self.has(k) && k != k_new {
                    let j = self.index_of(k);
                    assert(j < n);
                    assert(self.entries@[j] == before.entries@[j]);
                }
                if before.has(k) {
                    let j = before.index_of(k);
                    assert(self.entries@[j] == before.entries@[j]);
                }
            }
            self.lemma_index(k_new, n as int);
            assert forall|k: Seq<char>| self.has(k) implies self.view()[k] == before.view().insert(
                k_new,
                h,
            )[k] by {
                if k != k_new {
                    let j = before.index_of(k);
                    assert(self.entries@[j] == before.entries@[j]);
                    self.lemma_index(k, j);
                }
            }
            assert(self.view() =~= before.view().insert(k_new, h));
        }
        previous
    }

    /// The registered identities, each once.
    pub fn ids(&self) -> (r: Vec<String>)
        requires
            self.wf(),
        ensures
            r@.len() == self.view().dom().len(),
            forall|k: Seq<char>|
                self.view().contains_key(k) <==> exists|i: int| 0 <= i < r@.len() && #[trigger] r@[i]@ == k,
    {
        proof {
            self.lemma_dom_len();
        }
        let mut r: Vec<String> = Vec::new();
        let mut i: usize = 0;
        while i < self.entries.len()
            invariant
                self.wf(),
                i <= self.entries@.len(),
                r@.len() == i,
                forall|j: int| 0 <= j < i ==> r@[j]@ == #[trigger] self.entries@[j].0@,
            decreases self.entries@.len() - i,
        {
            r.push(self.entries[i].0.clone());
            i = i + 1;
        }
        proof {
            assert forall|k: Seq<char>|
                self.view().contains_key(k) <==> exists|i: int| 0 <= i < r@.len() && #[trigger] r@[i]@ == k by {
                if self.view().contains_key(k) {
                    let j = self.index_of(k);
                    assert(r@[j]@ == k);
                }
                if exists|i: int| 0 <= i < r@.len() && #[trigger] r@[i]@ == k {
                    let j = choose|i: int| 0 <= i < r@.len() && #[trigger] r@[i]@ == k;
                    assert(self.entries@[j].0@ == k);
                }
            }
        }
        r
    }
}

} // verus!
