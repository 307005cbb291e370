//! Session registry: a shared, identity-keyed store of live sessions.
//!
//! A session itself is an opaque live handle owned by the host; the
//! registry tracks which handle is current for each server id through an
//! opaque token.  Its mathematical meaning is a map from server id to
//! token: `put` is map insertion handing any superseded token back for
//! asynchronous retirement, `remove` is map removal handing the removed
//! token back for synchronous retirement, and `get` is lookup.

use vstd::prelude::*;

verus! {

/// An opaque token standing for one live session handle held by the host.
pub type SessionId = u64;

/// The identity-keyed store of live sessions, one row per server id.
pub struct SessionTable {
    entries: Vec<(String, SessionId)>,
}

/// The token of the first row named `id`, scanning from the front.
spec fn lookup_rows(s: Seq<(String, SessionId)>, id: Seq<char>) -> Option<SessionId>
    decreases s.len(),
{
    if s.len() == 0 {
        None
    } else if s[0].0@ == id {
        Some(s[0].1)
    } else {
        lookup_rows(s.drop_first(), id)
    }
}

/// If the first `i` rows are not named `id` and row `i` is, the scan
/// yields row `i`'s token.
proof fn lemma_lookup_at(s: Seq<(String, SessionId)>, id: Seq<char>, i: int)
    requires
        0 <= i < s.len(),
        s[i].0@ == id,
        forall|j: int| 0 <= j < i ==> s[j].0@ != id,
    ensures
        lookup_rows(s, id) == Some(s[i].1),
    decreases i,
{
    if i > 0 {
        lemma_lookup_at(s.drop_first(), id, i - 1);
    }
}

/// If no row is named `id`, the scan yields nothing.
proof fn lemma_lookup_none(s: Seq<(String, SessionId)>, id: Seq<char>)
    requires
        forall|j: int| 0 <= j < s.len() ==> s[j].0@ != id,
    ensures
        lookup_rows(s, id) is None,
    decreases s.len(),
{
    if s.len() > 0 {
        lemma_lookup_none(s.drop_first(), id);
    }
}

/// Appending a row changes only the lookup of ids that were absent.
proof fn lemma_lookup_push(s: Seq<(String, SessionId)>, p: (String, SessionId), k: Seq<char>)
    ensures
        lookup_rows(s.push(p), k) == if lookup_rows(s, k) is Some {
            lookup_rows(s, k)
        } else if p.0@ == k {
            Some(p.1)
        } else {
            None::<SessionId>
        },
    decreases s.len(),
{
    if s.len() == 0 {
        assert(s.push(p).len() == 1);
        assert(s.push(p)[0] == p);
        assert(s.push(p).drop_first() =~= Seq::<(String, SessionId)>::empty());
        assert(lookup_rows(s, k) is None);
        if p.0@ == k {
            assert(lookup_rows(s.push(p), k) == Some(p.1));
        } else {
            assert(lookup_rows(s.push(p), k) == lookup_rows(s.push(p).drop_first(), k));
            assert(lookup_rows(s.push(p), k) is None);
        }
    } else {
        assert(s.push(p)[0] == s[0]);
        assert(s.push(p).drop_first() =~= s.drop_first().push(p));
        lemma_lookup_push(s.drop_first(), p, k);
        if s[0].0@ == k {
            assert(lookup_rows(s, k) == Some(s[0].1));
            assert(lookup_rows(s.push(p), k) == Some(s[0].1));
        } else {
            assert(lookup_rows(s, k) == lookup_rows(s.drop_first(), k));
            assert(lookup_rows(s.push(p), k) == lookup_rows(s.drop_first().push(p), k));
        }
    }
}

/// Replacing a row not named `k` with another row not named `k` leaves
/// the lookup of `k` unchanged.
proof fn lemma_lookup_update(
    s: Seq<(String, SessionId)>,
    i: int,
    p: (String, SessionId),
    k: Seq<char>,
)
    requires
        0 <= i < s.len(),
        s[i].0@ != k,
        p.0@ != k,
    ensures
        lookup_rows(s.update(i, p), k) == lookup_rows(s, k),
    decreases i,
{
    if i == 0 {
        assert(s.update(0, p).drop_first() =~= s.drop_first());
    } else {
        assert(s.update(i, p)[0] == s[0]);
        assert(s.update(i, p).drop_first() =~= s.drop_first().update(i - 1, p));
        lemma_lookup_update(s.drop_first(), i - 1, p, k);
    }
}

/// Removing a row not named `k` leaves the lookup of `k` unchanged.
proof fn lemma_lookup_remove(s: Seq<(String, SessionId)>, i: int, k: Seq<char>)
    requires
        0 <= i < s.len(),
        s[i].0@ != k,
    ensures
        lookup_rows(s.remove(i), k) == lookup_rows(s, k),
    decreases i,
{
    if i == 0 {
        assert(s.remove(0) =~= s.drop_first());
    } else {
        assert(s.remove(i)[0] == s[0]);
        assert(s.remove(i).drop_first() =~= s.drop_first().remove(i - 1));
        lemma_lookup_remove(s.drop_first(), i - 1, k);
    }
}

impl View for SessionTable {
    type V = Map<Seq<char>, SessionId>;

    /// The registry as a map from server id to session token.
    closed spec fn view(&self) -> Map<Seq<char>, SessionId> {
        Map::new(
            |k: Seq<char>| lookup_rows(self.entries@, k) is Some,
            |k: Seq<char>|
                match lookup_rows(self.entries@, k) {
                    Some(t) => t,
                    None => 0,
                },
        )
    }
}

impl SessionTable {
    /// Each server id occupies at most one row.
    pub closed spec fn wf(&self) -> bool {
        forall|i: int, j: int|
            0 <= i < j < self.entries@.len() ==> self.entries@[i].0@ != self.entries@[j].0@
    }

    /// An empty registry: no server id has a session.
    pub fn new() -> (r: SessionTable)
        ensures
            r.wf(),
            r@ == Map::<Seq<char>, SessionId>::empty(),
    {
        let r = SessionTable { entries: Vec::new() };
        proof {
            assert forall|k: Seq<char>| !r@.contains_key(k) by {
                assert(lookup_rows(r.entries@, k) is None);
            }
            assert(r@ =~= Map::<Seq<char>, SessionId>::empty());
        }
        r
    }

    /// The index of the row named `id`, if one exists.
    fn find_index(&self, id: &String) -> (r: Option<usize>)
        ensures
            r matches Some(i) ==> i < self.entries@.len() && self.entries@[i as int].0@ == id@
                && forall|j: int| 0 <= j < i ==> self.entries@[j].0@ != id@,
            r is None ==> forall|j: int| 0 <= j < self.entries@.len() ==> self.entries@[j].0@
                != id@,
    {
        let mut i: usize = 0;
        while i < self.entries.len()
            invariant
                i <= self.entries@.len(),
                forall|j: int| 0 <= j < i ==> self.entries@[j].0@ != id@,
            decreases self.entries@.len() - i,
        {
            if self.entries[i].0 == *id {
                return Some(i);
            }
            i += 1;
        }
        None
    }

    /// Non-mutating fast-path lookup of the current session for `id`.
    pub fn get(&self, id: &String) -> (r: Option<SessionId>)
        ensures
            r == if self@.contains_key(id@) {
                Some(self@[id@])
            } else {
                None::<SessionId>
            },
    {
        match self.find_index(id) {
            Some(i) => {
                let t = self.entries[i].1;
                proof {
                    lemma_lookup_at(self.entries@, id@, i as int);
                }
                Some(t)
            },
            None => {
                proof {
                    lemma_lookup_none(self.entries@, id@);
                }
                None
            },
        }
    }

    /// Stores `session` as the current session for `id` and hands back
    /// the superseded token, if any, for retirement by the caller.
    pub fn put(&mut self, id: &String, session: SessionId) -> (prev: Option<SessionId>)
        requires
            old(self).wf(),
        ensures
            final(self).wf(),
            final(self)@ == old(self)@.insert(id@, session),
            prev == if old(self)@.contains_key(id@) {
                Some(old(self)@[id@])
            } else {
                None::<SessionId>
            },
    {
        let found = self.find_index(id);
        match found {
            Some(i) => {
                let prev = self.entries[i].1;
                proof {
                    lemma_lookup_at(self.entries@, id@, i as int);
                }
                let ghost before = self.entries@;
                self.entries.set(i, (id.clone(), session));
                proof {
                    lemma_lookup_at(self.entries@, id@, i as int);
                    assert forall|k: Seq<char>| k != id@ implies lookup_rows(self.entries@, k)
                        == lookup_rows(before, k) by {
                        lemma_lookup_update(before, i as int, self.entries@[i as int], k);
                    }
                    assert(final(self)@ =~= old(self)@.insert(id@, session));
                }
                Some(prev)
            },
            None => {
                proof {
                    lemma_lookup_none(self.entries@, id@);
                }
                let ghost before = self.entries@;
                self.entries.push((id.clone(), session));
                proof {
                    assert forall|k: Seq<char>|
                        lookup_rows(self.entries@, k) == if lookup_rows(before, k) is Some {
                            lookup_rows(before, k)
                        } else if k == id@ {
                            Some(session)
                        } else {
                            None::<SessionId>
                        } by {
                        lemma_lookup_push(before, self.entries@.last(), k);
                    }
                    assert(final(self)@ =~= old(self)@.insert(id@, session));
                }
                None
            },
        }
    }

    /// Removes the session for `id`, handing the removed token back for
    /// retirement by the caller; an absent id is a no-op.
    pub fn remove(&mut self, id: &String) -> (prev: Option<SessionId>)
        requires
            old(self).wf(),
        ensures
            final(self).wf(),
            final(self)@ == old(self)@.remove(id@),
            prev == if old(self)@.contains_key(id@) {
                Some(old(self)@[id@])
            } else {
                None::<SessionId>
            },
    {
        let found = self.find_index(id);
        match found {
            Some(i) => {
                let prev = self.entries[i].1;
                proof {
                    lemma_lookup_at(self.entries@, id@, i as int);
                }
                let ghost before = self.entries@;
                self.entries.remove(i);
                proof {
                    assert forall|a: int, b: int|
                        0 <= a < b < self.entries@.len() implies self.entries@[a].0@
                        != self.entries@[b].0@ by {
                        let a0 = if a < i as int { a } else { a + 1 };
                        let b0 = if b < i as int { b } else { b + 1 };
                        assert(self.entries@[a] == before[a0]);
                        assert(self.entries@[b] == before[b0]);
                    }
                    assert forall|j: int| 0 <= j < self.entries@.len() implies self.entries@[j].0@
                        != id@ by {
                        let j0 = if j < i as int { j } else { j + 1 };
                        assert(self.entries@[j] == before[j0]);
                    }
                    lemma_lookup_none(self.entries@, id@);
                    assert forall|k: Seq<char>| k != id@ implies lookup_rows(self.entries@, k)
                        == lookup_rows(before, k) by {
                        lemma_lookup_remove(before, i as int, k);
                    }
                    assert(final(self)@ =~= old(self)@.remove(id@));
                }
                Some(prev)
            },
            None => {
                proof {
                    lemma_lookup_none(self.entries@, id@);
                    assert(final(self)@ =~= old(self)@.remove(id@));
                }
                None
            },
        }
    }
}

} // verus!
