//! The actor's in-memory bookkeeping: the local identity, the set of
//! connected peers, the set of subscribed topic hashes, and the
//! correlation map of outstanding DHT queries.
//!
//! The correlation map is append-only during command handling and
//! strictly decreasing during result handling; every terminal result
//! removes exactly one entry.

use vstd::prelude::*;
use crate::types::{DhtKey, PeerId, TopicName};

verus! {

/// The originating command of an outstanding DHT query; carries enough
/// context to construct the completion event.
#[derive(Debug, Clone, PartialEq, Eq)]
pub enum PendingQuery {
    GetRecord(DhtKey),
    PutRecord(DhtKey),
    GetProviders(DhtKey),
    StartProviding(DhtKey),
}

/// Relies on libp2p gossipsub's `IdentTopic`: an identity-hash topic's
/// `TopicHash` is the raw topic string itself.
#[verifier::external_body]
fn topic_hash(topic: &str) -> (r: String)
    ensures
        r@ == topic@,
{
    libp2p::gossipsub::IdentTopic::new(topic).hash().into_string()
}

/// The mutable state the event loop consults. Only the actor mutates
/// it, in response to commands and protocol events.
#[derive(Debug, Clone, PartialEq, Eq)]
pub struct NetworkState {
    pub local_peer_id: PeerId,
    pub connected_peers: Vec<PeerId>,
    pub subscribed_topics: Vec<String>,
    pub pending_queries: Vec<(u64, PendingQuery)>,
}

impl NetworkState {
    /// Well-formedness: no peer or topic hash is recorded twice, and
    /// each query id maps to at most one entry.
    pub open spec fn wf(&self) -> bool {
        &&& forall|i: int, j: int|
            0 <= i < j < self.connected_peers@.len() ==> self.connected_peers@[i]@
                != self.connected_peers@[j]@
        &&& forall|i: int, j: int|
            0 <= i < j < self.subscribed_topics@.len() ==> self.subscribed_topics@[i]@
                != self.subscribed_topics@[j]@
        &&& forall|i: int, j: int|
            0 <= i < j < self.pending_queries@.len() ==> self.pending_queries@[i].0
                != self.pending_queries@[j].0
    }

    /// The set of connected peers, as their byte forms.
    pub open spec fn peers(&self) -> Set<Seq<u8>> {
        Set::new(
            |b: Seq<u8>|
                exists|i: int|
                    0 <= i < self.connected_peers@.len() && self.connected_peers@[i]@ == b,
        )
    }

    /// The set of subscribed topic hashes. For the identity topic hash
    /// in use, a hash is the topic name itself.
    pub open spec fn topics(&self) -> Set<Seq<char>> {
        Set::new(
            |t: Seq<char>|
                exists|i: int|
                    0 <= i < self.subscribed_topics@.len() && self.subscribed_topics@[i]@ == t,
        )
    }

    /// Whether some entry of the correlation map carries this id.
    pub open spec fn has_query(&self, id: u64) -> bool {
        exists|i: int| 0 <= i < self.pending_queries@.len() && self.pending_queries@[i].0 == id
    }

    /// The position of the entry carrying this id.
    pub open spec fn query_index(&self, id: u64) -> int {
        choose|i: int| 0 <= i < self.pending_queries@.len() && self.pending_queries@[i].0 == id
    }

    /// The correlation map of outstanding DHT queries.
    pub open spec fn queries(&self) -> Map<u64, PendingQuery> {
        Map::new(|id: u64| self.has_query(id), |id: u64| self.pending_queries@[self.query_index(id)].1)
    }

    /// Fresh state for an actor that has just derived its identity.
    pub fn new(local_peer_id: PeerId) -> (r: NetworkState)
        ensures
            r.wf(),
            r.local_peer_id == local_peer_id,
            r.peers() =~= Set::<Seq<u8>>::empty(),
            r.topics() =~= Set::<Seq<char>>::empty(),
            r.queries() =~= Map::<u64, PendingQuery>::empty(),
    {
        NetworkState {
            local_peer_id,
            connected_peers: Vec::new(),
            subscribed_topics: Vec::new(),
            pending_queries: Vec::new(),
        }
    }

    /// Whether the local node is subscribed to the topic.
    pub fn is_subscribed(&self, topic: &TopicName) -> (r: bool)
        ensures
            r == self.topics().contains(topic@),
    {
        let hash = topic_hash(topic.as_str());
        let n: usize = self.subscribed_topics.len();
        let mut i: usize = 0;
        while i < n
            invariant
                0 <= i <= n,
                n == self.subscribed_topics@.len(),
                hash@ == topic@,
                forall|j: int| 0 <= j < i ==> self.subscribed_topics@[j]@ != topic@,
            decreases n - i,
        {
            if self.subscribed_topics[i] == hash {
                assert(self.topics().contains(topic@));
                return true;
            }
            i += 1;
        }
        assert(!self.topics().contains(topic@));
        false
    }

    /// Records a topic the gossip sub-behavior has accepted a subscribe
    /// for. Recording an already-present topic changes nothing.
    pub fn add_subscription(&mut self, topic: &TopicName)
        requires
            old(self).wf(),
        ensures
            final(self).wf(),
            final(self).topics() =~= old(self).topics().insert(topic@),
            old(self).topics().contains(topic@) ==> *final(self) == *old(self),
            final(self).local_peer_id == old(self).local_peer_id,
            final(self).connected_peers == old(self).connected_peers,
            final(self).pending_queries == old(self).pending_queries,
    {
        if !self.is_subscribed(topic) {
            let hash = topic_hash(topic.as_str());
            self.subscribed_topics.push(hash);
            assert(self.topics() =~= old(self).topics().insert(topic@)) by {
                assert(self.subscribed_topics@.last()@ == topic@);
                assert(forall|j: int|
                    0 <= j < old(self).subscribed_topics@.len()
                        ==> self.subscribed_topics@[j] == old(self).subscribed_topics@[j]);
            }
        }
    }

    /// Forgets a topic after the gossip sub-behavior has accepted an
    /// unsubscribe. Removing an absent topic changes nothing.
    pub fn remove_subscription(&mut self, topic: &TopicName)
        requires
            old(self).wf(),
        ensures
            final(self).wf(),
            final(self).topics() =~= old(self).topics().remove(topic@),
            !old(self).topics().contains(topic@) ==> *final(self) == *old(self),
            final(self).local_peer_id == old(self).local_peer_id,
            final(self).connected_peers == old(self).connected_peers,
            final(self).pending_queries == old(self).pending_queries,
    {
        let hash = topic_hash(topic.as_str());
        let n: usize = self.subscribed_topics.len();
        let mut i: usize = 0;
        while i < n
            invariant
                0 <= i <= n,
                n == self.subscribed_topics@.len(),
                hash@ == topic@,
                old(self).wf(),
                *self == *old(self),
                forall|j: int| 0 <= j < i ==> self.subscribed_topics@[j]@ != topic@,
            decreases n - i,
        {
            if self.subscribed_topics[i] == hash {
                proof {
                    old(self).subscribed_topics@.remove_ensures(i as int);
                }
                self.subscribed_topics.remove(i);
                proof {
                    let os = old(self).subscribed_topics@;
                    let ns = self.subscribed_topics@;
                    assert(forall|j: int|
                        0 <= j < ns.len() ==> ns[j] == (if j < i {
                            os[j]
                        } else {
                            os[j + 1]
                        }));
                    assert(os[i as int]@ == topic@);
                    assert forall|t: Seq<char>| #[trigger] self.topics().contains(t) implies old(
                        self,
                    ).topics().remove(topic@).contains(t) by {
                        let j = choose|j: int| 0 <= j < ns.len() && ns[j]@ == t;
                        let oj: int = if j < i {
                            j
                        } else {
                            j + 1
                        };
                        assert(0 <= oj < os.len() && os[oj]@ == t);
                        assert(oj != i);
                        assert(t != topic@);
                    }
                    assert forall|t: Seq<char>| #[trigger] old(self).topics().remove(
                        topic@,
                    ).contains(t) implies self.topics().contains(t) by {
                        let j = choose|j: int| 0 <= j < os.len() && os[j]@ == t;
                        assert(j != i);
                        if j < i {
                            assert(ns[j]@ == t);
                        } else {
                            assert(ns[j - 1]@ == t);
                        }
                    }
                    assert(self.topics() =~= old(self).topics().remove(topic@));
                }
                return ;
            }
            i += 1;
        }
        assert(!old(self).topics().contains(topic@));
        assert(self.topics() =~= old(self).topics().remove(topic@));
    }

    /// Whether the peer is currently connected.
    pub fn is_connected(&self, peer: &PeerId) -> (r: bool)
        ensures
            r == self.peers().contains(peer@),
    {
        let n: usize = self.connected_peers.len();
        let mut i: usize = 0;
        while i < n
            invariant
                0 <= i <= n,
                n == self.connected_peers@.len(),
                forall|j: int| 0 <= j < i ==> self.connected_peers@[j]@ != peer@,
            decreases n - i,
        {
            if self.connected_peers[i].same_peer(peer) {
                assert(self.peers().contains(peer@));
                return true;
            }
            i += 1;
        }
        assert(!self.peers().contains(peer@));
        false
    }

    /// Records a peer whose first connection was just established.
    /// Recording an already-present peer changes nothing.
    pub fn add_peer(&mut self, peer: PeerId)
        requires
            old(self).wf(),
        ensures
            final(self).wf(),
            final(self).peers() =~= old(self).peers().insert(peer@),
            old(self).peers().contains(peer@) ==> *final(self) == *old(self),
            final(self).local_peer_id == old(self).local_peer_id,
            final(self).subscribed_topics == old(self).subscribed_topics,
            final(self).pending_queries == old(self).pending_queries,
    {
        if !self.is_connected(&peer) {
            self.connected_peers.push(peer);
            assert(self.peers() =~= old(self).peers().insert(self.connected_peers@.last()@)) by {
                assert(forall|j: int|
                    0 <= j < old(self).connected_peers@.len() ==> self.connected_peers@[j] == old(
                        self,
                    ).connected_peers@[j]);
            }
        }
    }

    /// Forgets a peer whose last connection just closed. Removing an
    /// absent peer changes nothing.
    pub fn remove_peer(&mut self, peer: &PeerId)
        requires
            old(self).wf(),
        ensures
            final(self).wf(),
            final(self).peers() =~= old(self).peers().remove(peer@),
            !old(self).peers().contains(peer@) ==> *final(self) == *old(self),
            final(self).local_peer_id == old(self).local_peer_id,
            final(self).subscribed_topics == old(self).subscribed_topics,
            final(self).pending_queries == old(self).pending_queries,
    {
        let n: usize = self.connected_peers.len();
        let mut i: usize = 0;
        while i < n
            invariant
                0 <= i <= n,
                n == self.connected_peers@.len(),
                old(self).wf(),
                *self == *old(self),
                forall|j: int| 0 <= j < i ==> self.connected_peers@[j]@ != peer@,
            decreases n - i,
        {
            if self.connected_peers[i].same_peer(peer) {
                proof {
                    old(self).connected_peers@.remove_ensures(i as int);
                }
                self.connected_peers.remove(i);
                proof {
                    let os = old(self).connected_peers@;
                    let ns = self.connected_peers@;
                    assert(forall|j: int|
                        0 <= j < ns.len() ==> ns[j] == (if j < i {
                            os[j]
                        } else {
                            os[j + 1]
                        }));
                    assert(os[i as int]@ == peer@);
                    assert forall|t: Seq<u8>| #[trigger] self.peers().contains(t) implies old(
                        self,
                    ).peers().remove(peer@).contains(t) by {
                        let j = choose|j: int| 0 <= j < ns.len() && ns[j]@ == t;
                        let oj: int = if j < i {
                            j
                        } else {
                            j + 1
                        };
                        assert(0 <= oj < os.len() && os[oj]@ == t);
                        assert(oj != i);
                        assert(t != peer@);
                    }
                    assert forall|t: Seq<u8>| #[trigger] old(self).peers().remove(peer@).contains(
                        t,
                    ) implies self.peers().contains(t) by {
                        let j = choose|j: int| 0 <= j < os.len() && os[j]@ == t;
                        assert(j != i);
                        if j < i {
                            assert(ns[j]@ == t);
                        } else {
                            assert(ns[j - 1]@ == t);
                        }
                    }
                    assert(self.peers() =~= old(self).peers().remove(peer@));
                }
                return ;
            }
            i += 1;
        }
        assert(!old(self).peers().contains(peer@));
        assert(self.peers() =~= old(self).peers().remove(peer@));
    }

    /// Inserts a correlation entry when a DHT command is accepted. Ids
    /// are issued by the DHT sub-behavior and are unique for the
    /// lifetime of the actor, so the id is fresh.
    pub fn track_query(&mut self, id: u64, query: PendingQuery)
        requires
            old(self).wf(),
            !old(self).has_query(id),
        ensures
            final(self).wf(),
            final(self).queries() =~= old(self).queries().insert(id, query),
            final(self).local_peer_id == old(self).local_peer_id,
            final(self).connected_peers == old(self).connected_peers,
            final(self).subscribed_topics == old(self).subscribed_topics,
    {
        self.pending_queries.push((id, query));
        proof {
            let os = old(self).pending_queries@;
            let ns = self.pending_queries@;
            assert(forall|j: int| 0 <= j < os.len() ==> ns[j] == os[j]);
            assert(ns.last() == (id, query));
            assert forall|k: u64| #[trigger] self.queries().dom().contains(k) implies old(
                self,
            ).queries().insert(id, query).dom().contains(k) && self.queries()[k] == old(
                self,
            ).queries().insert(id, query)[k] by {
                let qi = self.query_index(k);
                assert(0 <= qi < ns.len() && ns[qi].0 == k);
                if k == id {
                    assert(forall|j: int| 0 <= j < os.len() ==> os[j].0 != id);
                    assert(qi == os.len() as int);
                    assert(self.queries()[k] == query);
                } else {
                    assert(qi < os.len());
                    assert(old(self).has_query(k));
                    let oi = old(self).query_index(k);
                    assert(0 <= oi < os.len() && os[oi].0 == k);
                    assert(qi == oi);
                    assert(self.queries()[k] == os[oi].1);
                }
            }
            assert forall|k: u64| #[trigger] old(self).queries().insert(id, query).dom().contains(
                k,
            ) implies self.queries().dom().contains(k) by {
                if k == id {
                    assert(ns[os.len() as int].0 == id);
                } else {
                    let oi = old(self).query_index(k);
                    assert(ns[oi].0 == k);
                }
            }
        }
    }

    /// Whether a correlation entry for this id is outstanding.
    pub fn query_is_tracked(&self, id: u64) -> (r: bool)
        ensures
            r == self.has_query(id),
    {
        let n: usize = self.pending_queries.len();
        let mut i: usize = 0;
        while i < n
            invariant
                0 <= i <= n,
                n == self.pending_queries@.len(),
                forall|j: int| 0 <= j < i ==> self.pending_queries@[j].0 != id,
            decreases n - i,
        {
            if self.pending_queries[i].0 == id {
                assert(self.has_query(id));
                return true;
            }
            i += 1;
        }
        assert(!self.has_query(id));
        false
    }

    /// Removes and returns the correlation entry for a terminal query
    /// result. The entry is removed exactly once: a second completion
    /// of the same id finds nothing and changes nothing.
    pub fn complete_query(&mut self, id: u64) -> (r: Option<PendingQuery>)
        requires
            old(self).wf(),
        ensures
            final(self).wf(),
            r is Some <==> old(self).has_query(id),
            r matches Some(q) ==> q == old(self).queries()[id] && final(self).queries() =~= old(
                self,
            ).queries().remove(id),
            r is None ==> *final(self) == *old(self),
            final(self).local_peer_id == old(self).local_peer_id,
            final(self).connected_peers == old(self).connected_peers,
            final(self).subscribed_topics == old(self).subscribed_topics,
    {
        let n: usize = self.pending_queries.len();
        let mut i: usize = 0;
        while i < n
            invariant
                0 <= i <= n,
                n == self.pending_queries@.len(),
                old(self).wf(),
                *self == *old(self),
                forall|j: int| 0 <= j < i ==> self.pending_queries@[j].0 != id,
            decreases n - i,
        {
            if self.pending_queries[i].0 == id {
                proof {
                    old(self).pending_queries@.remove_ensures(i as int);
                }
                let entry = self.pending_queries.remove(i);
                proof {
                    let os = old(self).pending_queries@;
                    let ns = self.pending_queries@;
                    assert(forall|j: int|
                        0 <= j < ns.len() ==> ns[j] == (if j < i {
                            os[j]
                        } else {
                            os[j + 1]
                        }));
                    assert(entry.0 == id);
                    assert(old(self).has_query(id));
                    let oi = old(self).query_index(id);
                    assert(0 <= oi < os.len() && os[oi].0 == id);
                    assert(oi == i as int);
                    assert(entry.1 == old(self).queries()[id]);
                    assert forall|k: u64| #[trigger] self.queries().dom().contains(k) implies old(
                        self,
                    ).queries().remove(id).dom().contains(k) && self.queries()[k] == old(
                        self,
                    ).queries().remove(id)[k] by {
                        let qi = self.query_index(k);
                        assert(0 <= qi < ns.len() && ns[qi].0 == k);
                        let oj: int = if qi < i as int {
                            qi
                        } else {
                            qi + 1
                        };
                        assert(os[oj].0 == k && 0 <= oj < os.len());
                        assert(k != id);
                        assert(old(self).has_query(k));
                        let ok = old(self).query_index(k);
                        assert(0 <= ok < os.len() && os[ok].0 == k);
                        assert(ok == oj);
                        assert(self.queries()[k] == os[oj].1);
                    }
                    assert forall|k: u64| #[trigger] old(self).queries().remove(id).dom().contains(
                        k,
                    ) implies self.queries().dom().contains(k) by {
                        let ok = old(self).query_index(k);
                        assert(0 <= ok < os.len() && os[ok].0 == k && k != id);
                        assert(ok != oi);
                        if ok < oi {
                            assert(ns[ok].0 == k);
                        } else {
                            assert(ns[ok - 1].0 == k);
                        }
                    }
                }
                return Some(entry.1);
            }
            i += 1;
        }
        assert(!old(self).has_query(id));
        None
    }
}

/// Law: subscribing twice to a topic has the same effect on the
/// subscribed-topic set as subscribing once. `add_subscription` moves
/// the set to `insert(t)`, and inserting an element twice is inserting
/// it once; the second call moreover leaves the state untouched, as
/// its contract states for a topic already present.
pub proof fn lemma_subscribe_idempotent(topics: Set<Seq<char>>, t: Seq<char>)
    ensures
        topics.insert(t).insert(t) =~= topics.insert(t),
{
}

} // verus!
