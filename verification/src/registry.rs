//! The session broadcast registry: the single-owner directory of live
//! push-connection handles, one per (user, session) pair.
//!
//! The registry is a plain value mutated by exactly one serial command
//! processor; everyone else submits commands to that processor. A send
//! command is carried out in two steps: the processor asks for the
//! user's live sessions, attempts the deliveries — the handles are the
//! caller's, typically the sending half of a bounded channel — and
//! reports the failed sessions back, which prunes them. Delivery to one
//! entry is unaffected by another entry's failure, and a close command
//! removes entries whether or not their close signal could be
//! delivered.
//!
//! The handle type is a parameter: the registry owns the handles but
//! never looks inside them.

use vstd::prelude::*;

verus! {

/// A live entry: the outbound delivery handle registered for one
/// session of one user.
#[derive(Debug, Clone)]
pub struct RegistryEntry<H> {
    /// The user the connection belongs to.
    pub user: u128,
    /// The session the connection belongs to.
    pub session: u128,
    /// The outbound delivery handle of the connection.
    pub handle: H,
}

/// The directory of live connections.
pub struct Registry<H> {
    /// The live entries; no two share a (user, session) pair.
    pub entries: Vec<RegistryEntry<H>>,
}

impl<H> Registry<H> {
    /// The registry's invariant: at most one entry per (user, session)
    /// pair.
    pub open spec fn wf(self) -> bool {
        forall|i: int, j: int|
            0 <= i < j < self.entries@.len() ==> !(self.entries@[i].user == self.entries@[j].user
                && self.entries@[i].session == self.entries@[j].session)
    }

    /// Whether the pair (user, session) has a live entry.
    pub open spec fn has_entry(self, user: u128, session: u128) -> bool {
        exists|i: int|
            0 <= i < self.entries@.len() && self.entries@[i].user == user
                && self.entries@[i].session == session
    }

    /// An empty registry.
    pub fn new() -> (r: Registry<H>)
        ensures
            r.wf(),
            r.entries@.len() == 0,
    {
        Registry { entries: Vec::new() }
    }

    /// How many entries are live.
    pub fn len(&self) -> (r: usize)
        ensures
            r == self.entries@.len(),
    {
        self.entries.len()
    }

    /// Two entries with the same (user, session) pair are the same
    /// entry.
    pub proof fn lemma_entry_unique(self, i: int, j: int)
        requires
            self.wf(),
            0 <= i < self.entries@.len(),
            0 <= j < self.entries@.len(),
            self.entries@[i].user == self.entries@[j].user,
            self.entries@[i].session == self.entries@[j].session,
        ensures
            i == j,
    {
        if i < j {
            assert(!(self.entries@[i].user == self.entries@[j].user && self.entries@[i].session
                == self.entries@[j].session));
        } else if j < i {
            assert(!(self.entries@[j].user == self.entries@[i].user && self.entries@[j].session
                == self.entries@[i].session));
        }
    }

    /// Find the index of the entry for (user, session).
    pub fn find_entry(&self, user: u128, session: u128) -> (r: Option<usize>)
        requires
            self.wf(),
        ensures
            match r {
                Some(i) => i < self.entries@.len() && self.entries@[i as int].user == user
                    && self.entries@[i as int].session == session,
                None => !self.has_entry(user, session),
            },
    {
        let n = self.entries.len();
        for i in 0..n
            invariant
                n == self.entries@.len(),
                forall|j: int|
                    0 <= j < i ==> !(self.entries@[j].user == user && self.entries@[j].session
                        == session),
        {
            if self.entries[i].user == user && self.entries[i].session == session {
                return Some(i);
            }
        }
        proof {
            if self.has_entry(user, session) {
                let j = choose|j: int|
                    0 <= j < self.entries@.len() && self.entries@[j].user == user
                        && self.entries@[j].session == session;
                assert(!(self.entries@[j].user == user && self.entries@[j].session == session));
            }
        }
        None
    }

    /// Borrow the handle stored at an index.
    pub fn handle_at(&self, i: usize) -> (r: &H)
        requires
            i < self.entries@.len(),
        ensures
            *r == self.entries@[i as int].handle,
    {
        &self.entries[i].handle
    }

    /// Register a connection: insert the entry for (user, session), or
    /// overwrite a previous one.
    pub fn register_ws(&mut self, handle: H, user: u128, session: u128)
        requires
            old(self).wf(),
        ensures
            final(self).wf(),
            final(self).has_entry(user, session),
            old(self).has_entry(user, session) ==> {
                &&& final(self).entries@.len() == old(self).entries@.len()
                &&& forall|j: int|
                    0 <= j < old(self).entries@.len() ==> final(self).entries@[j] == (
                    if old(self).entries@[j].user == user && old(self).entries@[j].session
                        == session {
                        RegistryEntry { user, session, handle }
                    } else {
                        old(self).entries@[j]
                    })
            },
            !old(self).has_entry(user, session) ==> final(self).entries@ == old(self).entries@.push(RegistryEntry { user, session, handle }),
    {
        match self.find_entry(user, session) {
            Some(i) => {
                vstd::pervasive::VecAdditionalExecFns::set(
                    &mut self.entries,
                    i,
                    RegistryEntry { user, session, handle },
                );
                proof {
                    assert forall|j: int|
                        0 <= j < old(self).entries@.len() implies self.entries@[j] == (
                    if old(self).entries@[j].user == user && old(self).entries@[j].session
                        == session {
                        RegistryEntry { user, session, handle }
                    } else {
                        old(self).entries@[j]
                    }) by {
                        if j != i && old(self).entries@[j].user == user && old(self).entries@[j].session == session {
                            old(self).lemma_entry_unique(j, i as int);
                        }
                    }
                    assert(self.entries@[i as int].user == user && self.entries@[i as int].session
                        == session);
                }
            },
            None => {
                self.entries.push(RegistryEntry { user, session, handle });
                proof {
                    let n = self.entries@.len() - 1;
                    assert(self.entries@[n].user == user && self.entries@[n].session == session);
                }
            },
        }
    }

    /// The sessions of a user that have a live entry; each exactly once.
    ///
    /// A send to the user attempts delivery to every one of these.
    pub fn user_sessions(&self, user: u128) -> (r: Vec<u128>)
        requires
            self.wf(),
        ensures
            forall|s: u128| r@.contains(s) <==> self.has_entry(user, s),
            forall|a: int, b: int| 0 <= a < b < r@.len() ==> r@[a] != r@[b],
    {
        let mut out: Vec<u128> = Vec::new();
        let ghost mut src: Map<int, int> = Map::empty();
        let ghost mut rev: Map<int, int> = Map::empty();
        let n = self.entries.len();
        for i in 0..n
            invariant
                n == self.entries@.len(),
                self.wf(),
                forall|k: int|
                    0 <= k < out@.len() ==> 0 <= #[trigger] src[k] < i
                        && self.entries@[src[k]].user == user && self.entries@[src[k]].session
                        == out@[k],
                forall|j: int|
                    0 <= j < i && self.entries@[j].user == user ==> 0 <= #[trigger] rev[j]
                        < out@.len() && out@[rev[j]] == self.entries@[j].session,
                forall|a: int, b: int| 0 <= a < b < out@.len() ==> out@[a] != out@[b],
        {
            if self.entries[i].user == user {
                proof {
                    assert forall|k: int| 0 <= k < out@.len() implies out@[k]
                        != self.entries@[i as int].session by {
                        let j = src[k];
                        assert(!(self.entries@[j].user == self.entries@[i as int].user
                            && self.entries@[j].session == self.entries@[i as int].session));
                    }
                }
                out.push(self.entries[i].session);
                proof {
                    src = src.insert(out@.len() - 1, i as int);
                    rev = rev.insert(i as int, out@.len() - 1);
                    assert(out@[out@.len() - 1] == self.entries@[i as int].session);
                }
            }
        }
        proof {
            assert forall|s2: u128| out@.contains(s2) implies self.has_entry(user, s2) by {
                let k = choose|k: int| 0 <= k < out@.len() && out@[k] == s2;
                assert(self.entries@[src[k]].user == user && self.entries@[src[k]].session == s2);
            }
            assert forall|s2: u128| self.has_entry(user, s2) implies out@.contains(s2) by {
                let j = choose|j: int|
                    0 <= j < self.entries@.len() && self.entries@[j].user == user
                        && self.entries@[j].session == s2;
                assert(out@[rev[j]] == s2);
            }
        }
        out
    }

    /// Remove the entries of `user` whose sessions are listed in
    /// `failed`, handing their handles back: the prune step after a
    /// fan-out, fed with the sessions whose delivery failed.
    ///
    /// Entries of other users, and sessions of `user` that are not
    /// listed, survive with their handles; the order of the surviving
    /// entries may change.
    pub fn remove_sessions(&mut self, user: u128, failed: &Vec<u128>)
        requires
            old(self).wf(),
        ensures
            final(self).wf(),
            forall|k: int|
                0 <= k < final(self).entries@.len() ==> old(self).entries@.contains(
                    #[trigger] final(self).entries@[k],
                ) && !(final(self).entries@[k].user == user && failed@.contains(
                    final(self).entries@[k].session,
                )),
            forall|j: int|
                0 <= j < old(self).entries@.len() && !(old(self).entries@[j].user == user
                    && failed@.contains(old(self).entries@[j].session)) ==> final(self).entries@.contains(#[trigger] old(self).entries@[j]),
    {
        let mut kept: Vec<RegistryEntry<H>> = Vec::new();
        let n = self.entries.len();
        let ghost olds = self.entries@;
        let mut i: usize = 0;
        while self.entries.len() > 0
            invariant
                n == olds.len(),
                olds.len() == i + self.entries@.len(),
                self.entries@ == olds.take(olds.len() - i),
                forall|a: int, b: int|
                    0 <= a < b < olds.len() ==> !(olds[a].user == olds[b].user && olds[a].session
                        == olds[b].session),
                forall|k: int|
                    0 <= k < kept@.len() ==> (exists|j: int|
                        olds.len() - i <= j < olds.len() && #[trigger] kept@[k] == olds[j]) && !(
                    kept@[k].user == user && failed@.contains(kept@[k].session)),
                forall|j: int|
                    olds.len() - i <= j < olds.len() && !(olds[j].user == user && failed@.contains(
                        olds[j].session,
                    )) ==> kept@.contains(#[trigger] olds[j]),
                forall|a: int, b: int|
                    0 <= a < b < kept@.len() ==> !(kept@[a].user == kept@[b].user
                        && kept@[a].session == kept@[b].session),
            decreases self.entries@.len(),
        {
            let last = self.entries.len() - 1;
            let ghost cur = olds.len() - i - 1;
            let entry = self.entries.remove(last);
            proof {
                assert(entry == olds[cur]);
                assert(self.entries@ =~= olds.take(olds.len() - (i + 1)));
            }
            if !(entry.user == user && contains_u128(failed, entry.session)) {
                let ghost kept0 = kept@;
                proof {
                    assert forall|k: int| 0 <= k < kept0.len() implies !(kept0[k].user
                        == olds[cur].user && kept0[k].session == olds[cur].session) by {
                        let j = choose|j: int|
                            olds.len() - i <= j < olds.len() && kept0[k] == olds[j];
                        assert(!(olds[cur].user == olds[j].user && olds[cur].session
                            == olds[j].session));
                    }
                }
                kept.push(entry);
                proof {
                    assert(kept@[kept@.len() - 1] == olds[cur]);
                    assert forall|j: int|
                        olds.len() - (i + 1) <= j < olds.len() && !(olds[j].user == user
                            && failed@.contains(olds[j].session)) implies kept@.contains(
                        #[trigger] olds[j],
                    ) by {
                        if j == cur {
                            assert(kept@[kept@.len() - 1] == olds[j]);
                        } else {
                            let w = choose|w: int| 0 <= w < kept0.len() && kept0[w] == olds[j];
                            assert(kept@[w] == olds[j]);
                        }
                    }
                }
            }
            i = i + 1;
        }
        proof {
            assert forall|k: int| 0 <= k < kept@.len() implies olds.contains(
                #[trigger] kept@[k],
            ) by {
                let j = choose|j: int|
                    olds.len() - i <= j < olds.len() && kept@[k] == olds[j];
                assert(olds[j] == kept@[k]);
            }
        }
        self.entries = kept;
    }

    /// Remove every entry of a user: the close-user command.
    ///
    /// Returns each removed session with its handle, so that the caller
    /// can deliver the close signal to every previously-live connection
    /// of the user; the removal does not depend on those deliveries
    /// succeeding. Entries of other users survive with their handles;
    /// their order may change.
    pub fn close_user(&mut self, user: u128) -> (r: Vec<(u128, H)>)
        requires
            old(self).wf(),
        ensures
            final(self).wf(),
            forall|k: int|
                0 <= k < final(self).entries@.len() ==> old(self).entries@.contains(
                    #[trigger] final(self).entries@[k],
                ) && final(self).entries@[k].user != user,
            forall|j: int|
                0 <= j < old(self).entries@.len() && old(self).entries@[j].user != user ==> final(self).entries@.contains(#[trigger] old(self).entries@[j]),
            forall|j: int|
                0 <= j < old(self).entries@.len() && old(self).entries@[j].user == user
                    ==> r@.contains((old(self).entries@[j].session, old(self).entries@[j].handle)),
            forall|k: int|
                0 <= k < r@.len() ==> old(self).has_entry(user, #[trigger] r@[k].0),
    {
        let mut kept: Vec<RegistryEntry<H>> = Vec::new();
        let mut removed: Vec<(u128, H)> = Vec::new();
        let ghost olds = self.entries@;
        let ghost mut ksrc: Map<int, int> = Map::empty();
        let ghost mut krev: Map<int, int> = Map::empty();
        let ghost mut rsrc: Map<int, int> = Map::empty();
        let ghost mut rrev: Map<int, int> = Map::empty();
        let n = self.entries.len();
        let mut i: usize = 0;
        while self.entries.len() > 0
            invariant
                n == olds.len(),
                olds.len() == i + self.entries@.len(),
                self.entries@ == olds.take(olds.len() - i),
                forall|a: int, b: int|
                    0 <= a < b < olds.len() ==> !(olds[a].user == olds[b].user && olds[a].session
                        == olds[b].session),
                forall|k: int|
                    0 <= k < kept@.len() ==> olds.len() - i <= #[trigger] ksrc[k] < olds.len()
                        && olds[ksrc[k]] == kept@[k] && olds[ksrc[k]].user != user,
                forall|j: int|
                    olds.len() - i <= j < olds.len() && olds[j].user != user ==> 0 <= #[trigger] krev[j] < kept@.len() && kept@[krev[j]] == olds[j],
                forall|k: int|
                    0 <= k < removed@.len() ==> 0 <= #[trigger] rsrc[k] < olds.len()
                        && olds[rsrc[k]].user == user && (
                        olds[rsrc[k]].session,
                        olds[rsrc[k]].handle,
                        ) == removed@[k],
                forall|j: int|
                    olds.len() - i <= j < olds.len() && olds[j].user == user ==> 0 <= #[trigger] rrev[j] < removed@.len() && removed@[rrev[j]] == (olds[j].session, olds[j].handle),
                forall|a: int, b: int|
                    0 <= a < b < kept@.len() ==> !(kept@[a].user == kept@[b].user
                        && kept@[a].session == kept@[b].session),
            decreases self.entries@.len(),
        {
            let last = self.entries.len() - 1;
            let ghost cur = olds.len() - i - 1;
            let entry = self.entries.remove(last);
            proof {
                assert(entry == olds[cur]);
                assert(self.entries@ =~= olds.take(olds.len() - (i + 1)));
            }
            if entry.user == user {
                removed.push((entry.session, entry.handle));
                proof {
                    rsrc = rsrc.insert(removed@.len() - 1, cur);
                    rrev = rrev.insert(cur, removed@.len() - 1);
                    assert(removed@[removed@.len() - 1] == (olds[cur].session, olds[cur].handle));
                }
            } else {
                proof {
                    assert forall|k: int| 0 <= k < kept@.len() implies !(kept@[k].user
                        == olds[cur].user && kept@[k].session == olds[cur].session) by {
                        let j = ksrc[k];
                        assert(!(olds[cur].user == olds[j].user && olds[cur].session
                            == olds[j].session));
                    }
                }
                kept.push(entry);
                proof {
                    ksrc = ksrc.insert(kept@.len() - 1, cur);
                    krev = krev.insert(cur, kept@.len() - 1);
                    assert(kept@[kept@.len() - 1] == olds[cur]);
                }
            }
            i = i + 1;
        }
        self.entries = kept;
        proof {
            assert forall|k: int|
                0 <= k < self.entries@.len() implies old(self).entries@.contains(
                #[trigger] self.entries@[k],
            ) && self.entries@[k].user != user by {
                assert(old(self).entries@[ksrc[k]] == self.entries@[k]);
                assert(olds[ksrc[k]].user != user);
            }
            assert forall|j: int|
                0 <= j < old(self).entries@.len() && old(self).entries@[j].user != user implies self.entries@.contains(#[trigger] old(self).entries@[j]) by {
                assert(self.entries@[krev[j]] == old(self).entries@[j]);
            }
            assert forall|j: int|
                0 <= j < old(self).entries@.len() && old(self).entries@[j].user == user implies removed@.contains((old(self).entries@[j].session, old(self).entries@[j].handle)) by {
                assert(removed@[rrev[j]] == (old(self).entries@[j].session, old(self).entries@[j].handle));
            }
            assert forall|k: int| 0 <= k < removed@.len() implies old(self).has_entry(
                user,
                #[trigger] removed@[k].0,
            ) by {
                assert(0 <= rsrc[k] < old(self).entries@.len() && old(self).entries@[rsrc[k]].user
                    == user && old(self).entries@[rsrc[k]].session == removed@[k].0);
            }
        }
        removed
    }

    /// Remove the entry of one session of a user, handing its handle
    /// back: the close-session command.
    ///
    /// The caller delivers the close signal to the returned handle,
    /// best-effort; a failed delivery does not bring the entry back.
    /// Without a live entry the command is a no-op. The order of the
    /// surviving entries is kept.
    pub fn close_session(&mut self, user: u128, session: u128) -> (r: Option<H>)
        requires
            old(self).wf(),
        ensures
            final(self).wf(),
            !final(self).has_entry(user, session),
            match r {
                Some(h) => {
                    &&& exists|j: int|
                        0 <= j < old(self).entries@.len() && old(self).entries@[j]
                            == (RegistryEntry { user, session, handle: h })
                    &&& final(self).entries@.len() == old(self).entries@.len() - 1
                },
                None => !old(self).has_entry(user, session) && *final(self) == *old(self),
            },
            forall|k: int|
                0 <= k < final(self).entries@.len() ==> old(self).entries@.contains(
                    #[trigger] final(self).entries@[k],
                ) && !(final(self).entries@[k].user == user && final(self).entries@[k].session
                    == session),
            forall|j: int|
                0 <= j < old(self).entries@.len() && !(old(self).entries@[j].user == user && old(self).entries@[j].session == session) ==> final(self).entries@.contains(
                    #[trigger] old(self).entries@[j],
                ),
    {
        let Some(i) = self.find_entry(user, session) else {
            return None;
        };
        let entry = self.entries.remove(i);
        proof {
            let olds = old(self).entries@;
            let news = self.entries@;
            assert forall|k: int| 0 <= k < news.len() implies olds.contains(#[trigger] news[k])
                && !(news[k].user == user && news[k].session == session) by {
                if k < i {
                    assert(news[k] == olds[k]);
                    if news[k].user == user && news[k].session == session {
                        old(self).lemma_entry_unique(k, i as int);
                    }
                } else {
                    assert(news[k] == olds[k + 1]);
                    if news[k].user == user && news[k].session == session {
                        old(self).lemma_entry_unique(k + 1, i as int);
                    }
                }
            }
            assert forall|j: int|
                0 <= j < olds.len() && !(olds[j].user == user && olds[j].session == session) implies news.contains(
                #[trigger] olds[j],
            ) by {
                if j < i {
                    assert(news[j] == olds[j]);
                } else if j > i {
                    assert(news[j - 1] == olds[j]);
                }
            }
            assert forall|a: int, b: int|
                0 <= a < b < news.len() implies !(news[a].user == news[b].user && news[a].session
                == news[b].session) by {
                if b < i {
                } else if a < i {
                    assert(news[a] == olds[a] && news[b] == olds[b + 1]);
                } else {
                    assert(news[a] == olds[a + 1] && news[b] == olds[b + 1]);
                }
            }
            if self.has_entry(user, session) {
                let w = choose|w: int|
                    0 <= w < news.len() && news[w].user == user && news[w].session == session;
                assert(!(news[w].user == user && news[w].session == session));
            }
        }
        Some(entry.handle)
    }
}

/// Whether the vector contains the value.
fn contains_u128(v: &Vec<u128>, x: u128) -> (r: bool)
    ensures
        r == v@.contains(x),
{
    let n = v.len();
    for i in 0..n
        invariant
            n == v@.len(),
            forall|j: int| 0 <= j < i ==> v@[j] != x,
    {
        if v[i] == x {
            return true;
        }
    }
    proof {
        if v@.contains(x) {
            let j = choose|j: int| 0 <= j < v@.len() && v@[j] == x;
            assert(v@[j] != x);
        }
    }
    false
}

} // verus!
