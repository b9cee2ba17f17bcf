//! An in-memory session store with the contract that the gateway relies
//! on: sessions are created pending, read back unchanged, and upgraded at
//! most once.

use crate::session::{ObjectId, Session};
use vstd::prelude::*;

verus! {

/// Why the store refused to create a session.
#[derive(Clone, Copy, Debug, PartialEq, Eq, Structural)]
pub enum StoreError {
    /// The identifier offered for the new session is already taken.
    AlreadyExists,
}

/// What `upgrade` does to the sessions `m`: the session `id` becomes
/// `Authenticated` if it exists and is pending, and nothing changes
/// otherwise. The flag tells which.
pub open spec fn upgraded(
    m: Map<ObjectId, Session>,
    id: ObjectId,
    external_id: u64,
    access_token: String,
    refresh_token: String,
    expires_at: u64,
) -> (Map<ObjectId, Session>, bool) {
    if m.dom().contains(id) && m[id] is Pending {
        (
            m.insert(
                id,
                Session::Authenticated { external_id, access_token, refresh_token, expires_at },
            ),
            true,
        )
    } else {
        (m, false)
    }
}

/// What `create` does to the sessions `m`: a pending session appears
/// under `id` unless that identifier is taken.
pub open spec fn created(m: Map<ObjectId, Session>, id: ObjectId, nonce: u64) -> (
    Map<ObjectId, Session>,
    Result<ObjectId, StoreError>,
) {
    if m.dom().contains(id) {
        (m, Err(StoreError::AlreadyExists))
    } else {
        (m.insert(id, Session::Pending { nonce }), Ok(id))
    }
}

/// Sessions by identifier. No identifier is held twice.
pub struct SessionStore {
    entries: Vec<(ObjectId, Session)>,
}

spec fn holds(entries: Seq<(ObjectId, Session)>, id: ObjectId) -> bool {
    exists|i: int| 0 <= i < entries.len() && (#[trigger] entries[i]).0 == id
}

spec fn position(entries: Seq<(ObjectId, Session)>, id: ObjectId) -> int {
    choose|i: int| 0 <= i < entries.len() && (#[trigger] entries[i]).0 == id
}

spec fn distinct(entries: Seq<(ObjectId, Session)>) -> bool {
    forall|i: int, j: int|
        0 <= i < entries.len() && 0 <= j < entries.len() && i != j ==> (#[trigger] entries[i]).0
            != (#[trigger] entries[j]).0
}

spec fn as_map(entries: Seq<(ObjectId, Session)>) -> Map<ObjectId, Session> {
    Map::new(|id: ObjectId| holds(entries, id), |id: ObjectId| entries[position(entries, id)].1)
}

proof fn lemma_entry(entries: Seq<(ObjectId, Session)>, i: int)
    requires
        distinct(entries),
        0 <= i < entries.len(),
    ensures
        as_map(entries).dom().contains(entries[i].0),
        as_map(entries)[entries[i].0] == entries[i].1,
        position(entries, entries[i].0) == i,
{
    let id = entries[i].0;
    assert(holds(entries, id));
    let p = position(entries, id);
    assert(0 <= p < entries.len() && entries[p].0 == id);
}

impl SessionStore {
    /// No identifier is held twice. Every store that `new` made and
    /// that only the methods below have touched is well formed.
    pub closed spec fn wf(&self) -> bool {
        distinct(self.entries@)
    }

    /// The sessions held, by identifier.
    pub closed spec fn view(&self) -> Map<ObjectId, Session> {
        as_map(self.entries@)
    }

    /// A store without sessions.
    pub fn new() -> (out: SessionStore)
        ensures
            out.wf(),
            out@ == Map::<ObjectId, Session>::empty(),
    {
        let out = SessionStore { entries: Vec::new() };
        assert(out@ =~= Map::<ObjectId, Session>::empty());
        out
    }

    fn find(&self, id: &ObjectId) -> (out: Option<usize>)
        ensures
            out matches Some(i) ==> i < self.entries@.len() && self.entries@[i as int].0 == *id,
            out is None ==> !holds(self.entries@, *id),
    {
        let mut i: usize = 0;
        while i < self.entries.len()
            invariant
                i <= self.entries@.len(),
                forall|j: int| 0 <= j < i ==> (#[trigger] self.entries@[j]).0 != *id,
            decreases self.entries@.len() - i,
        {
            if self.entries[i].0.same(id) {
                return Some(i);
            }
            i += 1;
        }
        None
    }

    /// Creates a pending session under `id`, the identifier that the
    /// caller generated for it. An identifier that is already taken is
    /// reported, and the store is left unchanged.
    pub fn create(&mut self, id: ObjectId, nonce: u64) -> (out: Result<ObjectId, StoreError>)
        requires
            old(self).wf(),
        ensures
            final(self).wf(),
            (final(self)@, out) == created(old(self)@, id, nonce),
    {
        match self.find(&id) {
            Some(i) => {
                proof {
                    lemma_entry(self.entries@, i as int);
                }
                Err(StoreError::AlreadyExists)
            },
            None => {
                let ghost before = self.entries@;
                self.entries.push((id, Session::Pending { nonce }));
                proof {
                    let after = self.entries@;
                    assert(after[before.len() as int].0 == id);
                    assert(distinct(after)) by {
                        assert forall|i: int, j: int|
                            0 <= i < after.len() && 0 <= j < after.len() && i != j implies (
                        #[trigger] after[i]).0 != (#[trigger] after[j]).0 by {
                            if i < before.len() {
                                assert(before[i] == after[i]);
                            }
                            if j < before.len() {
                                assert(before[j] == after[j]);
                            }
                        }
                    }
                    assert forall|k: ObjectId| holds(after, k) <==> (k == id || holds(before, k)) by {
                        if holds(before, k) {
                            let p = position(before, k);
                            assert(after[p] == before[p]);
                        }
                        if holds(after, k) && k != id {
                            let p = position(after, k);
                            assert(before[p] == after[p]);
                        }
                    }
                    assert forall|k: ObjectId| holds(after, k) implies as_map(after)[k] == (
                    if k == id {
                        Session::Pending { nonce }
                    } else {
                        as_map(before)[k]
                    }) by {
                        let p = position(after, k);
                        lemma_entry(after, p);
                        if k != id {
                            assert(before[p] == after[p]);
                            lemma_entry(before, p);
                        } else {
                            lemma_entry(after, before.len() as int);
                        }
                    }
                    assert(as_map(after) =~= as_map(before).insert(id, Session::Pending { nonce }));
                }
                Ok(id)
            },
        }
    }

    /// The session held under `id`, if there is one.
    pub fn get(&self, id: ObjectId) -> (out: Option<Session>)
        requires
            self.wf(),
        ensures
            out == (if self@.dom().contains(id) {
                Some(self@[id])
            } else {
                None
            }),
    {
        match self.find(&id) {
            Some(i) => {
                proof {
                    lemma_entry(self.entries@, i as int);
                }
                Some(self.entries[i].1.clone())
            },
            None => None,
        }
    }

    /// Binds the session `id` to an external identity. Succeeds exactly
    /// when the session exists and is pending; otherwise nothing changes.
    pub fn upgrade(
        &mut self,
        id: ObjectId,
        external_id: u64,
        access_token: String,
        refresh_token: String,
        expires_at: u64,
    ) -> (ok: bool)
        requires
            old(self).wf(),
        ensures
            final(self).wf(),
            (final(self)@, ok) == upgraded(
                old(self)@,
                id,
                external_id,
                access_token,
                refresh_token,
                expires_at,
            ),
    {
        match self.find(&id) {
            None => false,
            Some(i) => {
                let ghost before = self.entries@;
                proof {
                    lemma_entry(before, i as int);
                }
                let pending = match &self.entries[i].1 {
                    Session::Pending { .. } => true,
                    Session::Authenticated { .. } => false,
                };
                if !pending {
                    return false;
                }
                let session = Session::Authenticated {
                    external_id,
                    access_token,
                    refresh_token,
                    expires_at,
                };
                self.entries.set(i, (id, session));
                proof {
                    let after = self.entries@;
                    assert(after[i as int].0 == id);
                    assert forall|j: int| 0 <= j < after.len() implies (#[trigger] after[j]).0
                        == before[j].0 by {}
                    assert(distinct(after)) by {
                        assert forall|a: int, b: int|
                            0 <= a < after.len() && 0 <= b < after.len() && a != b implies (
                        #[trigger] after[a]).0 != (#[trigger] after[b]).0 by {
                            assert(after[a].0 == before[a].0);
                            assert(after[b].0 == before[b].0);
                        }
                    }
                    assert forall|k: ObjectId| holds(after, k) <==> holds(before, k) by {
                        if holds(before, k) {
                            let p = position(before, k);
                            assert(after[p].0 == k);
                        }
                        if holds(after, k) {
                            let p = position(after, k);
                            assert(before[p].0 == k);
                        }
                    }
                    assert forall|k: ObjectId| holds(after, k) implies as_map(after)[k] == (
                    if k == id {
                        session
                    } else {
                        as_map(before)[k]
                    }) by {
                        let p = position(after, k);
                        lemma_entry(after, p);
                        assert(before[p].0 == k);
                        lemma_entry(before, p);
                        if k == id {
                            lemma_entry(after, i as int);
                        }
                    }
                    assert(as_map(after) =~= as_map(before).insert(id, session));
                }
                true
            },
        }
    }
}

/// A session is upgraded at most once: after an upgrade that succeeded,
/// another one for the same identifier fails and changes nothing.
pub proof fn lemma_upgrade_at_most_once(
    m: Map<ObjectId, Session>,
    id: ObjectId,
    first: (u64, String, String, u64),
    second: (u64, String, String, u64),
)
    requires
        upgraded(m, id, first.0, first.1, first.2, first.3).1,
    ensures
        upgraded(
            upgraded(m, id, first.0, first.1, first.2, first.3).0,
            id,
            second.0,
            second.1,
            second.2,
            second.3,
        ) == (upgraded(m, id, first.0, first.1, first.2, first.3).0, false),
{
}

/// An upgrade touches no session but the one it names, and succeeds only
/// for a session that `create` made and no upgrade has yet bound.
pub proof fn lemma_upgrade_needs_pending(
    m: Map<ObjectId, Session>,
    id: ObjectId,
    identity: (u64, String, String, u64),
)
    ensures
        upgraded(m, id, identity.0, identity.1, identity.2, identity.3).1 <==> m.dom().contains(id)
            && m[id] is Pending,
        forall|other: ObjectId|
            other != id && m.dom().contains(other) ==> #[trigger] upgraded(
                m,
                id,
                identity.0,
                identity.1,
                identity.2,
                identity.3,
            ).0[other] == m[other],
{
}

} // verus!
