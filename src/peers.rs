use vstd::prelude::*;

verus! {

pub type ConnectionId = String;

pub type GoogleId = String;

/// A user's Google id and the id of one of their WebSocket connections. The
/// Google id identifies the user, the connection id one connection: a user may
/// hold several connections at once.
pub type WsUserId = (GoogleId, ConnectionId);

/// A message the WebSocket service sends to one client connection.
#[derive(Debug)]
pub struct ServiceToClientMessage;

/// A peer's key as a pair of character sequences.
pub type PeerKey = (Seq<char>, Seq<char>);

pub open spec fn key_view(k: WsUserId) -> PeerKey {
    (k.0@, k.1@)
}

pub open spec fn entries_view<S>(v: Seq<(WsUserId, S)>) -> Seq<(PeerKey, S)> {
    v.map_values(|e: (WsUserId, S)| (key_view(e.0), e.1))
}

pub open spec fn keys_unique<S>(es: Seq<(PeerKey, S)>) -> bool {
    forall|i: int, j: int| 0 <= i < j < es.len() ==> es[i].0 != es[j].0
}

pub open spec fn has_key<S>(es: Seq<(PeerKey, S)>, k: PeerKey) -> bool {
    exists|i: int| 0 <= i < es.len() && es[i].0 == k
}

/// The entries whose connection is not `conn`, in order.
pub open spec fn without_connection<S>(es: Seq<(PeerKey, S)>, conn: Seq<char>) -> Seq<
    (PeerKey, S),
>
    decreases es.len(),
{
    if es.len() == 0 {
        Seq::empty()
    } else {
        without_connection(es.drop_last(), conn) + if es.last().0.1 == conn {
            Seq::empty()
        } else {
            seq![es.last()]
        }
    }
}

proof fn lemma_without_connection<S>(es: Seq<(PeerKey, S)>, conn: Seq<char>)
    requires
        keys_unique(es),
    ensures
        keys_unique(without_connection(es, conn)),
        forall|j: int|
            0 <= j < without_connection(es, conn).len() ==> has_key(
                es,
                #[trigger] without_connection(es, conn)[j].0,
            ),
    decreases es.len(),
{
    if es.len() > 0 {
        let prev = es.drop_last();
        assert(keys_unique(prev));
        lemma_without_connection(prev, conn);
        let w = without_connection(prev, conn);
        assert forall|j: int| 0 <= j < w.len() implies #[trigger] w[j].0 != es.last().0 by {
            assert(has_key(prev, w[j].0));
            let i = choose|i: int| 0 <= i < prev.len() && prev[i].0 == w[j].0;
            assert(es[i].0 == w[j].0);
        }
        let r = without_connection(es, conn);
        assert forall|j: int| 0 <= j < r.len() implies has_key(es, #[trigger] r[j].0) by {
            if j < w.len() {
                assert(has_key(prev, w[j].0));
                let i = choose|i: int| 0 <= i < prev.len() && prev[i].0 == w[j].0;
                assert(es[i].0 == r[j].0);
            } else {
                assert(es[es.len() - 1].0 == r[j].0);
            }
        }
    }
}

/// The connected peers, each with the sender that reaches its connection.
#[derive(Debug)]
pub struct PeersMap<S> {
    peers: Vec<(WsUserId, S)>,
}

impl<S> PeersMap<S> {
    /// The peers in the order they were first added.
    pub closed spec fn entries(&self) -> Seq<(PeerKey, S)> {
        entries_view(self.peers@)
    }

    pub closed spec fn wf(&self) -> bool {
        keys_unique(self.entries())
    }

    pub fn new() -> (r: Self)
        ensures
            r.wf(),
            r.entries() == Seq::<(PeerKey, S)>::empty(),
    {
        let r = PeersMap { peers: Vec::new() };
        assert(r.entries() =~= Seq::empty());
        r
    }

    /// Registers a connection; a key already present gets the new sender.
    pub fn add_peer(&mut self, peer: (WsUserId, S))
        requires
            old(self).wf(),
        ensures
            final(self).wf(),
            final(self).entries().len() >= old(self).entries().len(),
            has_key(old(self).entries(), key_view(peer.0)) ==> final(self).entries().len()
                == old(self).entries().len(),
            !has_key(old(self).entries(), key_view(peer.0)) ==> final(self).entries()
                == old(self).entries().push((key_view(peer.0), peer.1)),
            forall|i: int|
                0 <= i < old(self).entries().len() ==> #[trigger] final(self).entries()[i] == if old(
                    self,
                ).entries()[i].0 == key_view(peer.0) {
                    (key_view(peer.0), peer.1)
                } else {
                    old(self).entries()[i]
                },
    {
        let ghost old_entries = self.entries();
        let ghost k = key_view(peer.0);
        let n = self.peers.len();
        let mut i: usize = 0;
        while i < n
            invariant
                n == self.peers@.len(),
                i <= n,
                self.entries() == old_entries,
                old_entries == old(self).entries(),
                keys_unique(old_entries),
                k == key_view(peer.0),
                forall|j: int| 0 <= j < i ==> old_entries[j].0 != k,
            decreases n - i,
        {
            if self.peers[i].0.0 == peer.0.0 && self.peers[i].0.1 == peer.0.1 {
                assert(old_entries[i as int].0 == k);
                self.peers.set(i, peer);
                proof {
                    assert forall|j: int|
                        0 <= j < old_entries.len() && j != i implies old_entries[j].0 != k by {
                        if j < i {
                        } else {
                            assert(old_entries[i as int].0 != old_entries[j].0);
                        }
                    }
                    assert(self.entries() =~= old_entries.update(i as int, (k, peer.1)));
                    assert(has_key(old_entries, k));
                    assert(self.entries().len() == old_entries.len());
                }
                return;
            }
            i = i + 1;
        }
        self.peers.push(peer);
        proof {
            assert(self.entries() =~= old_entries.push((k, peer.1)));
        }
    }

    /// Removes the peer of one connection; the user's other connections stay.
    pub fn remove_peer(&mut self, connection_id: ConnectionId)
        requires
            old(self).wf(),
        ensures
            final(self).wf(),
            final(self).entries() == without_connection(old(self).entries(), connection_id@),
    {
        let ghost es = self.entries();
        let mut entries: Vec<(WsUserId, S)> = Vec::new();
        std::mem::swap(&mut entries, &mut self.peers);
        let ghost src = entries@;
        let mut kept: Vec<(WsUserId, S)> = Vec::new();
        for e in iter: entries.into_iter()
            invariant
                iter.seq() == src,
                es == entries_view(src),
                entries_view(kept@) == without_connection(
                    es.take(iter.index() as int),
                    connection_id@,
                ),
        {
            let ghost i = iter.index() as int;
            proof {
                assert(e == src[i]);
                assert(es.take(i + 1).drop_last() =~= es.take(i));
            }
            let same_connection = e.0.1 == connection_id;
            if !same_connection {
                kept.push(e);
            }
            proof {
                assert(entries_view(kept@) =~= without_connection(es.take(i + 1), connection_id@));
            }
        }
        proof {
            assert(es.take(es.len() as int) =~= es);
            lemma_without_connection(es, connection_id@);
        }
        self.peers = kept;
    }

    pub fn len(&self) -> (r: usize)
        ensures
            r == self.entries().len(),
    {
        self.peers.len()
    }
}

} // verus!
