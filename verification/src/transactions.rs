//! The transaction registry: a shared mapping from transaction
//! identifier to an exclusively held connection with an in-progress
//! transaction. Entries are created by `begin_transaction` and
//! destroyed by exactly one commit or rollback.

use vstd::prelude::*;

verus! {

/// The mapping from live transaction id to its dedicated connection.
/// Each connection sits behind its own exclusion lock, distinct from
/// whatever lock guards this registry, so two statements against the
/// same transaction serialize while different transactions proceed
/// concurrently.
pub struct TransactionManager {
    entries: Vec<(u128, std::sync::Arc<std::sync::Mutex<rusqlite::Connection>>)>,
}

impl TransactionManager {
    /// The registry as a mathematical map from live transaction id to
    /// its stored shared connection.
    pub closed spec fn view(&self) -> Map<
        u128,
        std::sync::Arc<std::sync::Mutex<rusqlite::Connection>>,
    > {
        Map::new(
            |id: u128| exists|i: int| 0 <= i < self.entries@.len() && self.entries@[i].0 == id,
            |id: u128|
                {
                    let i = choose|i: int|
                        0 <= i < self.entries@.len() && self.entries@[i].0 == id;
                    self.entries@[i].1
                },
        )
    }

    /// Ids occur at most once.
    pub closed spec fn wf(&self) -> bool {
        forall|i: int, j: int|
            0 <= i < j < self.entries@.len() ==> self.entries@[i].0 != self.entries@[j].0
    }

    /// An entry at a given index settles both membership and the value
    /// of the map at its id.
    proof fn lemma_entry_at(&self, i: int)
        requires
            self.wf(),
            0 <= i < self.entries@.len(),
        ensures
            self@.contains_key(self.entries@[i].0),
            self@[self.entries@[i].0] == self.entries@[i].1,
    {
        let id = self.entries@[i].0;
        assert(self@.contains_key(id));
        let j = choose|j: int| 0 <= j < self.entries@.len() && self.entries@[j].0 == id;
        if i != j {
            assert(false);
        }
    }

    pub fn new() -> (r: Self)
        ensures
            r.wf(),
            r@ == Map::<u128, std::sync::Arc<std::sync::Mutex<rusqlite::Connection>>>::empty(),
    {
        let r = TransactionManager { entries: Vec::new() };
        proof {
            assert(r@ =~= Map::<
                u128,
                std::sync::Arc<std::sync::Mutex<rusqlite::Connection>>,
            >::empty());
        }
        r
    }

    /// The index holding an id, if any.
    fn find(&self, id: u128) -> (r: Option<usize>)
        ensures
            r matches Some(i) ==> 0 <= i < self.entries@.len() && self.entries@[i as int].0 == id,
            r is None ==> forall|i: int| 0 <= i < self.entries@.len() ==> self.entries@[i].0 != id,
    {
        let mut idx: usize = 0;
        while idx < self.entries.len()
            invariant
                0 <= idx <= self.entries@.len(),
                forall|i: int| 0 <= i < idx ==> self.entries@[i].0 != id,
            decreases self.entries@.len() - idx,
        {
            if self.entries[idx].0 == id {
                return Some(idx);
            }
            idx += 1;
        }
        None
    }

    /// Whether a transaction id has a live entry.
    pub fn contains(&self, id: u128) -> (r: bool)
        ensures
            r == self@.contains_key(id),
    {
        match self.find(id) {
            Some(i) => {
                proof {
                    assert(self.entries@[i as int].0 == id);
                    assert(self@.contains_key(id));
                }
                true
            },
            None => {
                proof {
                    assert(!self@.contains_key(id));
                }
                false
            },
        }
    }

    /// Stores the shared connection of a fresh transaction under its
    /// id.
    pub fn insert(
        &mut self,
        id: u128,
        conn: std::sync::Arc<std::sync::Mutex<rusqlite::Connection>>,
    )
        requires
            old(self).wf(),
            !old(self)@.contains_key(id),
        ensures
            final(self).wf(),
            final(self)@ == old(self)@.insert(id, conn),
    {
        let ghost old_self = *self;
        let ghost c = conn;
        self.entries.push((id, conn));
        proof {
            let k = old_self.entries@.len() as int;
            assert forall|p: int, q: int|
                0 <= p < q < self.entries@.len() implies self.entries@[p].0
                != self.entries@[q].0 by {
                if q < k {
                    assert(old_self.entries@[p].0 != old_self.entries@[q].0);
                } else {
                    old_self.lemma_entry_at(p);
                }
            }
            assert(self@ =~= old_self@.insert(id, c)) by {
                assert forall|x: u128| self@.contains_key(x) == old_self@.insert(
                    id,
                    c,
                ).contains_key(x) by {
                    if self@.contains_key(x) {
                        let j = choose|j: int|
                            0 <= j < self.entries@.len() && self.entries@[j].0 == x;
                        if j < k {
                            assert(old_self.entries@[j].0 == x);
                        }
                    }
                    if old_self@.contains_key(x) {
                        let j = choose|j: int|
                            0 <= j < old_self.entries@.len() && old_self.entries@[j].0 == x;
                        assert(self.entries@[j].0 == x);
                    }
                    if x == id {
                        assert(self.entries@[k].0 == id);
                    }
                }
                assert forall|x: u128| #[trigger] self@.contains_key(x) implies self@[x]
                    == old_self@.insert(id, c)[x] by {
                    let j = choose|j: int|
                        0 <= j < self.entries@.len() && self.entries@[j].0 == x;
                    self.lemma_entry_at(j);
                    if x != id {
                        if j == k {
                            assert(false);
                        }
                        assert(old_self.entries@[j].0 == x);
                        old_self.lemma_entry_at(j);
                    } else {
                        if j != k {
                            assert(old_self.entries@[j].0 == id);
                            old_self.lemma_entry_at(j);
                            assert(false);
                        }
                    }
                }
            }
        }
    }

    /// Removes a transaction, handing back exactly the shared
    /// connection stored for that id; `None` when no live entry
    /// matches.
    pub fn remove(&mut self, id: u128) -> (r: Option<
        std::sync::Arc<std::sync::Mutex<rusqlite::Connection>>,
    >)
        requires
            old(self).wf(),
        ensures
            final(self).wf(),
            final(self)@ == old(self)@.remove(id),
            r is Some <==> old(self)@.contains_key(id),
            r matches Some(c) ==> c == old(self)@[id],
    {
        let ghost old_self = *self;
        match self.find(id) {
            Some(i) => {
                proof {
                    old_self.lemma_entry_at(i as int);
                }
                let (_, conn) = self.entries.remove(i);
                proof {
                    let k = i as int;
                    assert forall|p: int, q: int|
                        0 <= p < q < self.entries@.len() implies self.entries@[p].0
                        != self.entries@[q].0 by {
                        let p0 = if p < k { p } else { p + 1 };
                        let q0 = if q < k { q } else { q + 1 };
                        assert(self.entries@[p] == old_self.entries@[p0]);
                        assert(self.entries@[q] == old_self.entries@[q0]);
                        assert(old_self.entries@[p0].0 != old_self.entries@[q0].0);
                    }
                    assert(self@ =~= old_self@.remove(id)) by {
                        assert forall|x: u128| self@.contains_key(x) == old_self@.remove(
                            id,
                        ).contains_key(x) by {
                            if self@.contains_key(x) {
                                let j = choose|j: int|
                                    0 <= j < self.entries@.len() && self.entries@[j].0 == x;
                                let j0 = if j < k { j } else { j + 1 };
                                assert(self.entries@[j] == old_self.entries@[j0]);
                                if x == id {
                                    assert(old_self.entries@[j0].0 == old_self.entries@[k].0);
                                    assert(false);
                                }
                            }
                            if old_self@.contains_key(x) && x != id {
                                let j = choose|j: int|
                                    0 <= j < old_self.entries@.len() && old_self.entries@[j].0
                                        == x;
                                if j == k {
                                    assert(false);
                                }
                                let j1 = if j < k { j } else { j - 1 };
                                assert(self.entries@[j1] == old_self.entries@[j]);
                            }
                        }
                        assert forall|x: u128| #[trigger] self@.contains_key(x) implies self@[x]
                            == old_self@.remove(id)[x] by {
                            let j = choose|j: int|
                                0 <= j < self.entries@.len() && self.entries@[j].0 == x;
                            self.lemma_entry_at(j);
                            let j0 = if j < k { j } else { j + 1 };
                            assert(self.entries@[j] == old_self.entries@[j0]);
                            old_self.lemma_entry_at(j0);
                        }
                    }
                }
                Some(conn)
            },
            None => {
                proof {
                    assert(!old_self@.contains_key(id));
                    assert(self@ =~= old_self@.remove(id));
                }
                None
            },
        }
    }

    /// Hands out another owner of exactly the shared connection stored
    /// for a live id; the caller locks it for the duration of one
    /// statement, without holding any registry lock meanwhile.
    pub fn shared_conn(&self, id: u128) -> (r: Option<
        std::sync::Arc<std::sync::Mutex<rusqlite::Connection>>,
    >)
        requires
            self.wf(),
        ensures
            r is Some <==> self@.contains_key(id),
            r matches Some(c) ==> c == self@[id],
    {
        match self.find(id) {
            Some(i) => {
                proof {
                    self.lemma_entry_at(i as int);
                }
                Some(crate::sql::clone_shared(&self.entries[i].1))
            },
            None => {
                proof {
                    assert(!self@.contains_key(id));
                }
                None
            },
        }
    }
}

} // verus!
