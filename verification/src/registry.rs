//! The alias registry: a shared mapping from caller-chosen alias
//! strings to resolved database locations. Pure bookkeeping; keys are
//! unique, and re-loading an alias overwrites its location.

use vstd::prelude::*;

verus! {

/// A resolved database location, as the path string handed to the
/// engine: either the reserved in-memory marker or a filesystem path.
pub struct DbInfo {
    pub path: String,
}

/// The shared mapping from alias to resolved location.
pub struct ConnectionManager {
    entries: Vec<(String, DbInfo)>,
}

impl ConnectionManager {
    /// The registry as a mathematical map from alias to location.
    pub closed spec fn view(&self) -> Map<Seq<char>, Seq<char>> {
        Map::new(
            |a: Seq<char>| exists|i: int| 0 <= i < self.entries@.len() && self.entries@[i].0@ == a,
            |a: Seq<char>|
                {
                    let i = choose|i: int|
                        0 <= i < self.entries@.len() && self.entries@[i].0@ == a;
                    self.entries@[i].1.path@
                },
        )
    }

    /// Keys occur at most once.
    pub closed spec fn wf(&self) -> bool {
        forall|i: int, j: int|
            0 <= i < j < self.entries@.len() ==> self.entries@[i].0@ != self.entries@[j].0@
    }

    /// An entry at a given index settles both membership and the value
    /// of the map at its key.
    proof fn lemma_entry_at(&self, i: int)
        requires
            self.wf(),
            0 <= i < self.entries@.len(),
        ensures
            self@.contains_key(self.entries@[i].0@),
            self@[self.entries@[i].0@] == self.entries@[i].1.path@,
    {
        let a = self.entries@[i].0@;
        assert(self@.contains_key(a));
        let j = choose|j: int| 0 <= j < self.entries@.len() && self.entries@[j].0@ == a;
        if i != j {
            assert(false);
        }
    }

    pub fn new() -> (r: Self)
        ensures
            r.wf(),
            r@ == Map::<Seq<char>, Seq<char>>::empty(),
    {
        let r = ConnectionManager { entries: Vec::new() };
        proof {
            assert(r@ =~= Map::<Seq<char>, Seq<char>>::empty());
        }
        r
    }

    /// The index holding an alias, if any.
    fn find(&self, alias: &str) -> (r: Option<usize>)
        ensures
            r matches Some(i) ==> 0 <= i < self.entries@.len() && self.entries@[i as int].0@
                == alias@,
            r is None ==> forall|i: int|
                0 <= i < self.entries@.len() ==> self.entries@[i].0@ != alias@,
    {
        let mut idx: usize = 0;
        while idx < self.entries.len()
            invariant
                0 <= idx <= self.entries@.len(),
                forall|i: int| 0 <= i < idx ==> self.entries@[i].0@ != alias@,
            decreases self.entries@.len() - idx,
        {
            if crate::strings::str_eq(self.entries[idx].0.as_str(), alias) {
                return Some(idx);
            }
            idx += 1;
        }
        None
    }

    /// Whether an alias has a live entry.
    pub fn contains(&self, alias: &str) -> (r: bool)
        requires
            self.wf(),
        ensures
            r == self@.contains_key(alias@),
    {
        match self.find(alias) {
            Some(i) => {
                proof {
                    self.lemma_entry_at(i as int);
                }
                true
            },
            None => {
                proof {
                    assert(!self@.contains_key(alias@));
                }
                false
            },
        }
    }

    /// Read-only lookup of an alias's resolved location.
    pub fn resolve(&self, alias: &str) -> (r: Option<String>)
        requires
            self.wf(),
        ensures
            r matches Some(p) ==> self@.contains_key(alias@) && p@ == self@[alias@],
            r is None ==> !self@.contains_key(alias@),
    {
        match self.find(alias) {
            Some(i) => {
                proof {
                    self.lemma_entry_at(i as int);
                }
                Some(self.entries[i].1.path.clone())
            },
            None => {
                proof {
                    assert(!self@.contains_key(alias@));
                }
                None
            },
        }
    }

    /// Upserts an alias's location; an existing entry is overwritten.
    pub fn insert(&mut self, alias: String, path: String)
        requires
            old(self).wf(),
        ensures
            final(self).wf(),
            final(self)@ == old(self)@.insert(alias@, path@),
    {
        let ghost old_self = *self;
        match self.find(alias.as_str()) {
            Some(i) => {
                self.entries.set(i, (alias, DbInfo { path }));
                proof {
                    assert forall|p: int, q: int|
                        0 <= p < q < self.entries@.len() implies self.entries@[p].0@
                        != self.entries@[q].0@ by {
                        assert(old_self.entries@[p].0@ != old_self.entries@[q].0@);
                    }
                    assert(self@ =~= old_self@.insert(old_self.entries@[i as int].0@, path@))
                        by {
                        assert forall|a: Seq<char>| self@.contains_key(a) == old_self@.insert(
                            old_self.entries@[i as int].0@,
                            path@,
                        ).contains_key(a) by {
                            if self@.contains_key(a) {
                                let j = choose|j: int|
                                    0 <= j < self.entries@.len() && self.entries@[j].0@ == a;
                                if j != i {
                                    old_self.lemma_entry_at(j);
                                }
                            }
                            if old_self@.contains_key(a) {
                                let j = choose|j: int|
                                    0 <= j < old_self.entries@.len() && old_self.entries@[j].0@
                                        == a;
                                if j != i {
                                    assert(self.entries@[j].0@ == a);
                                }
                            }
                        }
                        assert forall|a: Seq<char>| #[trigger] self@.contains_key(a) implies
                            self@[a] == old_self@.insert(
                            old_self.entries@[i as int].0@,
                            path@,
                        )[a] by {
                            let j = choose|j: int|
                                0 <= j < self.entries@.len() && self.entries@[j].0@ == a;
                            self.lemma_entry_at(j);
                            if j != i {
                                assert(old_self.entries@[j].0@ == a);
                                old_self.lemma_entry_at(j);
                            }
                        }
                    }
                }
            },
            None => {
                self.entries.push((alias, DbInfo { path }));
                proof {
                    let k = old_self.entries@.len() as int;
                    assert forall|p: int, q: int|
                        0 <= p < q < self.entries@.len() implies self.entries@[p].0@
                        != self.entries@[q].0@ by {
                        if q < k {
                            assert(old_self.entries@[p].0@ != old_self.entries@[q].0@);
                        } else {
                            assert(old_self.entries@[p].0@ != self.entries@[q].0@);
                        }
                    }
                    assert(self@ =~= old_self@.insert(self.entries@[k].0@, path@)) by {
                        assert forall|a: Seq<char>| self@.contains_key(a)
                            == old_self@.insert(self.entries@[k].0@, path@).contains_key(a) by {
                            if self@.contains_key(a) {
                                let j = choose|j: int|
                                    0 <= j < self.entries@.len() && self.entries@[j].0@ == a;
                                if j < k {
                                    old_self.lemma_entry_at(j);
                                }
                            }
                            if old_self@.contains_key(a) {
                                let j = choose|j: int|
                                    0 <= j < old_self.entries@.len() && old_self.entries@[j].0@
                                        == a;
                                assert(self.entries@[j].0@ == a);
                            }
                        }
                        assert forall|a: Seq<char>| #[trigger] self@.contains_key(a) implies
                            self@[a] == old_self@.insert(self.entries@[k].0@, path@)[a] by {
                            let j = choose|j: int|
                                0 <= j < self.entries@.len() && self.entries@[j].0@ == a;
                            self.lemma_entry_at(j);
                            if j < k {
                                assert(old_self.entries@[j].0@ == a);
                                old_self.lemma_entry_at(j);
                            }
                        }
                    }
                }
            },
        }
    }

    /// Removes an alias; reports whether it was present.
    pub fn remove(&mut self, alias: &str) -> (r: bool)
        requires
            old(self).wf(),
        ensures
            final(self).wf(),
            final(self)@ == old(self)@.remove(alias@),
            r == old(self)@.contains_key(alias@),
    {
        let ghost old_self = *self;
        match self.find(alias) {
            Some(i) => {
                proof {
                    old_self.lemma_entry_at(i as int);
                }
                let _ = self.entries.remove(i);
                proof {
                    let k = i as int;
                    let n = old_self.entries@.len();
                    assert forall|p: int, q: int|
                        0 <= p < q < self.entries@.len() implies self.entries@[p].0@
                        != self.entries@[q].0@ by {
                        let p0 = if p < k { p } else { p + 1 };
                        let q0 = if q < k { q } else { q + 1 };
                        assert(self.entries@[p] == old_self.entries@[p0]);
                        assert(self.entries@[q] == old_self.entries@[q0]);
                        assert(old_self.entries@[p0].0@ != old_self.entries@[q0].0@);
                    }
                    assert(self@ =~= old_self@.remove(alias@)) by {
                        assert forall|a: Seq<char>| self@.contains_key(a) == old_self@.remove(
                            alias@,
                        ).contains_key(a) by {
                            if self@.contains_key(a) {
                                let j = choose|j: int|
                                    0 <= j < self.entries@.len() && self.entries@[j].0@ == a;
                                let j0 = if j < k { j } else { j + 1 };
                                assert(self.entries@[j] == old_self.entries@[j0]);
                                old_self.lemma_entry_at(j0);
                                if j0 == k {
                                    assert(false);
                                }
                            }
                            if old_self@.contains_key(a) && a != alias@ {
                                let j = choose|j: int|
                                    0 <= j < old_self.entries@.len() && old_self.entries@[j].0@
                                        == a;
                                let j1 = if j < k { j } else { j - 1 };
                                if j == k {
                                    assert(false);
                                }
                                assert(self.entries@[j1] == old_self.entries@[j]);
                            }
                        }
                        assert forall|a: Seq<char>| #[trigger] self@.contains_key(a) implies
                            self@[a] == old_self@.remove(alias@)[a] by {
                            let j = choose|j: int|
                                0 <= j < self.entries@.len() && self.entries@[j].0@ == a;
                            self.lemma_entry_at(j);
                            let j0 = if j < k { j } else { j + 1 };
                            assert(self.entries@[j] == old_self.entries@[j0]);
                            old_self.lemma_entry_at(j0);
                        }
                    }
                }
                true
            },
            None => {
                proof {
                    assert(!old_self@.contains_key(alias@));
                    assert(self@ =~= old_self@.remove(alias@));
                }
                false
            },
        }
    }

    /// Removes every entry; an empty registry is a valid state.
    pub fn clear(&mut self)
        ensures
            final(self).wf(),
            final(self)@ == Map::<Seq<char>, Seq<char>>::empty(),
    {
        self.entries.clear();
        proof {
            assert(self@ =~= Map::<Seq<char>, Seq<char>>::empty());
        }
    }

    /// Whether the registry holds no entry.
    pub fn is_empty(&self) -> (r: bool)
        requires
            self.wf(),
        ensures
            r == (self@ == Map::<Seq<char>, Seq<char>>::empty()),
    {
        let r = self.entries.len() == 0;
        proof {
            if r {
                assert(self@ =~= Map::<Seq<char>, Seq<char>>::empty());
            } else {
                self.lemma_entry_at(0);
            }
        }
        r
    }

}

} // verus!
