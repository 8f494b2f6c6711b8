//! The mapping from backend client identities to adapter sessions. It never
//! holds a core client identity: those come only from the session bridge. The
//! backend identity type `K` is the caller's (the Wayland backend's `ClientId`
//! in the Linux runtime); its `==` must be plain equality.

use vstd::prelude::*;

use crate::smithay_backend::client_session::NestedClientSessionId;

verus! {

/// `==` on `K` is plain equality.
pub open spec fn key_eq_is_equality<K: PartialEq>() -> bool {
    vstd::laws_eq::obeys_concrete_eq::<K>()
}

/// Backend client `c` has an entry in `e`.
pub open spec fn has_backend_client<K>(e: Seq<(K, NestedClientSessionId)>, c: K) -> bool {
    exists|i: int| 0 <= i < e.len() && e[i].0 == c
}

/// Position of backend client `c` in `e`.
pub open spec fn backend_pos<K>(e: Seq<(K, NestedClientSessionId)>, c: K) -> int {
    choose|i: int| 0 <= i < e.len() && e[i].0 == c
}

/// No backend client has two entries.
pub open spec fn backend_clients_unique<K>(e: Seq<(K, NestedClientSessionId)>) -> bool {
    forall|i: int, j: int| 0 <= i < j < e.len() ==> e[i].0 != e[j].0
}

/// The entries as a map from backend client to session.
pub open spec fn entries_map<K>(e: Seq<(K, NestedClientSessionId)>) -> Map<K, NestedClientSessionId> {
    Map::new(|c: K| has_backend_client(e, c), |c: K| e[backend_pos(e, c)].1)
}

/// The session mapped for `c` in `m`, if any.
pub open spec fn mapped_session<K>(m: Map<K, NestedClientSessionId>, c: K) -> Option<
    NestedClientSessionId,
> {
    if m.dom().contains(c) {
        Some(m[c])
    } else {
        None
    }
}

proof fn lemma_pos_is<K>(e: Seq<(K, NestedClientSessionId)>, c: K, j: int)
    requires
        backend_clients_unique(e),
        0 <= j < e.len(),
        e[j].0 == c,
    ensures
        has_backend_client(e, c),
        backend_pos(e, c) == j,
{
    let p = backend_pos(e, c);
    if p != j {
        if p < j {
            assert(e[p].0 != e[j].0);
        } else {
            assert(e[j].0 != e[p].0);
        }
    }
}

proof fn lemma_remove_entry<K>(e: Seq<(K, NestedClientSessionId)>, i: int)
    requires
        backend_clients_unique(e),
        0 <= i < e.len(),
    ensures
        backend_clients_unique(e.remove(i)),
        entries_map(e.remove(i)) == entries_map(e).remove(e[i].0),
{
    let r = e.remove(i);
    assert forall|a: int, b: int| 0 <= a < b < r.len() implies r[a].0 != r[b].0 by {
        let oa = if a < i { a } else { a + 1 };
        let ob = if b < i { b } else { b + 1 };
        assert(r[a] == e[oa]);
        assert(r[b] == e[ob]);
    }
    let m = entries_map(e).remove(e[i].0);
    let n = entries_map(r);
    assert forall|c: K| n.dom().contains(c) <==> m.dom().contains(c) by {
        if has_backend_client(r, c) {
            let k = backend_pos(r, c);
            let ok = if k < i { k } else { k + 1 };
            assert(r[k] == e[ok]);
            lemma_pos_is(e, c, ok);
        }
        if has_backend_client(e, c) && c != e[i].0 {
            let k = backend_pos(e, c);
            let rk = if k < i { k } else { k - 1 };
            assert(r[rk] == e[k]);
        }
    }
    assert forall|c: K| #[trigger] n.dom().contains(c) implies n[c] == m[c] by {
        let k = backend_pos(r, c);
        let ok = if k < i { k } else { k + 1 };
        assert(r[k] == e[ok]);
        lemma_pos_is(e, c, ok);
    }
    assert(n =~= m);
}

/// The backend-client to session mapping.
#[derive(Debug, Clone)]
pub struct NestedAcceptedClientMapping<K> {
    sessions: Vec<(K, NestedClientSessionId)>,
}

impl<K: PartialEq> NestedAcceptedClientMapping<K> {
    /// The entries in insertion order.
    pub closed spec fn spec_entries(&self) -> Seq<(K, NestedClientSessionId)> {
        self.sessions@
    }

    /// The mapping as a map.
    pub open spec fn spec_map(&self) -> Map<K, NestedClientSessionId> {
        entries_map(self.spec_entries())
    }

    /// No backend client has two entries.
    pub open spec fn wf(&self) -> bool {
        backend_clients_unique(self.spec_entries())
    }

    /// An empty mapping.
    pub fn new() -> (r: Self)
        ensures
            r.wf(),
            r.spec_entries() == Seq::<(K, NestedClientSessionId)>::empty(),
            r.spec_map() == Map::<K, NestedClientSessionId>::empty(),
    {
        let r = Self { sessions: Vec::new() };
        assert(r.spec_map() =~= Map::<K, NestedClientSessionId>::empty());
        r
    }

    fn find(&self, client: &K) -> (r: Option<usize>)
        requires
            self.wf(),
            key_eq_is_equality::<K>(),
        ensures
            r is Some <==> has_backend_client(self.spec_entries(), *client),
            r matches Some(i) ==> i < self.spec_entries().len() && backend_pos(
                self.spec_entries(),
                *client,
            ) == i && self.spec_entries()[i as int].0 == *client,
    {
        let mut i: usize = 0;
        while i < self.sessions.len()
            invariant
                self.wf(),
                key_eq_is_equality::<K>(),
                i <= self.sessions@.len(),
                forall|k: int| 0 <= k < i ==> self.sessions@[k].0 != *client,
            decreases self.sessions@.len() - i,
        {
            let same = self.sessions[i].0 == *client;
            proof {
                reveal(vstd::laws_eq::obeys_concrete_eq);
            }
            if same {
                proof {
                    lemma_pos_is(self.sessions@, *client, i as int);
                }
                return Some(i);
            }
            i = i + 1;
        }
        None
    }

    /// Maps `client` to `session` and returns the session it was mapped to before.
    pub fn insert(&mut self, client: K, session: NestedClientSessionId) -> (r: Option<
        NestedClientSessionId,
    >)
        requires
            old(self).wf(),
            key_eq_is_equality::<K>(),
        ensures
            final(self).wf(),
            r == mapped_session(old(self).spec_map(), client),
            final(self).spec_map() == old(self).spec_map().insert(client, session),
    {
        let ghost e = self.sessions@;
        match self.find(&client) {
            Some(i) => {
                let previous = self.sessions[i].1;
                let ghost c = client;
                self.sessions.set(i, (client, session));
                proof {
                    let n = self.sessions@;
                    assert forall|a: int, b: int| 0 <= a < b < n.len() implies n[a].0 != n[b].0 by {
                        assert(n[a].0 == e[a].0);
                        assert(n[b].0 == e[b].0);
                    }
                    let m = entries_map(e).insert(c, session);
                    assert forall|x: K| entries_map(n).dom().contains(x) <==> m.dom().contains(x) by {
                        if has_backend_client(n, x) {
                            let k = backend_pos(n, x);
                            assert(n[k].0 == e[k].0);
                        }
                        if has_backend_client(e, x) {
                            let k = backend_pos(e, x);
                            assert(n[k].0 == e[k].0);
                        }
                        if x == c {
                            assert(n[i as int].0 == c);
                        }
                    }
                    assert forall|x: K| #[trigger] entries_map(n).dom().contains(x) implies entries_map(n)[x]
                        == m[x] by {
                        let k = backend_pos(n, x);
                        assert(n[k].0 == e[k].0);
                        lemma_pos_is(e, x, k);
                    }
                    assert(entries_map(n) =~= m);
                }
                Some(previous)
            },
            None => {
                let ghost c = client;
                self.sessions.push((client, session));
                proof {
                    let n = self.sessions@;
                    assert forall|a: int, b: int| 0 <= a < b < n.len() implies n[a].0 != n[b].0 by {
                        if b == n.len() - 1 {
                            assert(n[b].0 == c);
                            assert(n[a] == e[a]);
                        } else {
                            assert(n[a] == e[a]);
                            assert(n[b] == e[b]);
                        }
                    }
                    let m = entries_map(e).insert(c, session);
                    assert forall|x: K| entries_map(n).dom().contains(x) <==> m.dom().contains(x) by {
                        if has_backend_client(n, x) {
                            let k = backend_pos(n, x);
                            if k < e.len() {
                                assert(n[k] == e[k]);
                            }
                        }
                        if has_backend_client(e, x) {
                            let k = backend_pos(e, x);
                            assert(n[k] == e[k]);
                        }
                        if x == c {
                            assert(n[e.len() as int].0 == c);
                        }
                    }
                    assert forall|x: K| #[trigger] entries_map(n).dom().contains(x) implies entries_map(n)[x]
                        == m[x] by {
                        let k = backend_pos(n, x);
                        if k < e.len() {
                            assert(n[k] == e[k]);
                            lemma_pos_is(e, x, k);
                        }
                    }
                    assert(entries_map(n) =~= m);
                }
                None
            },
        }
    }

    /// The session mapped for `client`.
    pub fn lookup(&self, client: &K) -> (r: Option<NestedClientSessionId>)
        requires
            self.wf(),
            key_eq_is_equality::<K>(),
        ensures
            r == mapped_session(self.spec_map(), *client),
    {
        match self.find(client) {
            Some(i) => Some(self.sessions[i].1),
            None => None,
        }
    }

    /// Removes the entry of `client` and returns its session.
    pub fn remove(&mut self, client: &K) -> (r: Option<NestedClientSessionId>)
        requires
            old(self).wf(),
            key_eq_is_equality::<K>(),
        ensures
            final(self).wf(),
            r == mapped_session(old(self).spec_map(), *client),
            final(self).spec_map() == old(self).spec_map().remove(*client),
    {
        let ghost e = self.sessions@;
        match self.find(client) {
            Some(i) => {
                let entry = self.sessions.remove(i);
                proof {
                    lemma_remove_entry(e, i as int);
                }
                Some(entry.1)
            },
            None => {
                assert(entries_map(e).remove(*client) =~= entries_map(e));
                None
            },
        }
    }

    /// Removes an entry mapped to `session` and returns its backend client.
    pub fn remove_session(&mut self, session: NestedClientSessionId) -> (r: Option<K>)
        requires
            old(self).wf(),
        ensures
            final(self).wf(),
            r is None <==> !(exists|c: K| #[trigger] old(self).spec_map().dom().contains(c)
                && old(self).spec_map()[c] == session),
            r matches Some(c) ==> old(self).spec_map().dom().contains(c) && old(self).spec_map()[c]
                == session && final(self).spec_map() == old(self).spec_map().remove(c),
            r is None ==> final(self).spec_map() == old(self).spec_map(),
    {
        let ghost e = self.sessions@;
        let mut i: usize = 0;
        while i < self.sessions.len()
            invariant
                self.wf(),
                self.sessions@ == e,
                e == old(self).sessions@,
                i <= e.len(),
                forall|k: int| 0 <= k < i ==> e[k].1 != session,
            decreases e.len() - i,
        {
            if self.sessions[i].1 == session {
                let entry = self.sessions.remove(i);
                proof {
                    assert(entry == e[i as int]);
                    lemma_pos_is(e, entry.0, i as int);
                    lemma_remove_entry(e, i as int);
                    assert(entries_map(e).dom().contains(entry.0));
                    assert(entries_map(e)[entry.0] == session);
                    assert(old(self).spec_map().dom().contains(entry.0));
                }
                return Some(entry.0);
            }
            i = i + 1;
        }
        proof {
            assert forall|c: K| #[trigger] entries_map(e).dom().contains(c) implies entries_map(e)[c]
                != session by {
                let k = backend_pos(e, c);
            }
        }
        None
    }

    /// Number of entries.
    pub fn len(&self) -> (r: usize)
        ensures
            r == self.spec_entries().len(),
    {
        self.sessions.len()
    }

    /// Whether there is no entry.
    pub fn is_empty(&self) -> (r: bool)
        ensures
            r == (self.spec_entries().len() == 0),
    {
        self.sessions.len() == 0
    }
}


/// Looking up a backend client right after mapping it gives the session it was
/// mapped to; after removing it, nothing; other clients are unaffected.
pub proof fn law_mapping_insert_lookup_remove<K>(
    m: Map<K, NestedClientSessionId>,
    client: K,
    other: K,
    session: NestedClientSessionId,
)
    requires
        other != client,
    ensures
        mapped_session(m.insert(client, session), client) == Some(session),
        mapped_session(m.insert(client, session), other) == mapped_session(m, other),
        mapped_session(m.remove(client), client) is None,
        mapped_session(m.remove(client), other) == mapped_session(m, other),
{
}

} // verus!
