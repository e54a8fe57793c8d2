//! The network actor's decision logic: what each embedder command asks
//! of the swarm, and what each raw swarm event does to the actor state
//! and to the embedder-visible event stream.
//!
//! The event loop that owns the swarm performs the returned actions,
//! feeds protocol events back in their neutral form, and emits the
//! returned events; every decision and state change is made here.

use vstd::prelude::*;
use vstd::string::StringExecFns;
use crate::commands::{NetworkCommand, NetworkEvent, SwarmAction};
use crate::error::CommandError;
use crate::handlers::gossipsub::{gossip_output, GossipEvent, GossipsubHandler};
use crate::handlers::kademlia::{kad_output, KadEvent, KademliaHandler};
use crate::handlers::mdns::{mdns_output, MdnsEvent, MdnsHandler};
use crate::state::{NetworkState, PendingQuery};
use crate::types::{DhtKey, DhtValue, GossipPayload, PeerId, TopicName};

verus! {

/// The operation a command asks the event loop to perform on the
/// swarm.
#[derive(Debug, Clone, PartialEq, Eq)]
pub enum CommandAction {
    Dial { addr: String },
    Subscribe { topic: TopicName },
    Unsubscribe { topic: TopicName },
    Publish { topic: TopicName, payload: GossipPayload },
    PutRecord { key: DhtKey, value: DhtValue },
    GetRecord { key: DhtKey },
    StartProviding { key: DhtKey },
    GetProviders { key: DhtKey },
}

/// The actor's decision on one command: end the loop, perform a swarm
/// operation, or reject the command outright.
#[derive(Debug, Clone, PartialEq, Eq)]
pub enum CommandPlan {
    Shutdown,
    Act { action: CommandAction },
    Reject { error: CommandError },
}

/// A raw swarm event, carried as the plain values the actor reads.
/// `num_established` counts the connections to the peer after the
/// transition.
#[derive(Debug, Clone, PartialEq, Eq)]
pub enum RawSwarmEvent {
    ConnectionEstablished { peer_id: PeerId, remote_addr: String, num_established: u32 },
    ConnectionClosed { peer_id: PeerId, num_established: u32 },
    NewListenAddr { address: String },
    Gossipsub { event: GossipEvent },
    Kademlia { event: KadEvent },
    Mdns { event: MdnsEvent },
    Other,
}

/// Turns one embedder command into the actor's decision. The actor
/// state is only consulted, never changed: state changes follow the
/// swarm's answers.
///
/// A `Publish` on a topic outside the subscribed set is rejected here,
/// before the swarm is touched: one must be a subscriber to publish.
/// An `Unsubscribe` of a topic outside the set is likewise rejected
/// without touching anything.
pub fn plan_command(state: &NetworkState, cmd: NetworkCommand) -> (r: CommandPlan)
    ensures
        match cmd {
            NetworkCommand::Shutdown => r == CommandPlan::Shutdown,
            NetworkCommand::Dial { addr } => r == CommandPlan::Act {
                action: CommandAction::Dial { addr },
            },
            NetworkCommand::Subscribe { topic } => r == CommandPlan::Act {
                action: CommandAction::Subscribe { topic },
            },
            NetworkCommand::Unsubscribe { topic } => {
                if state.topics().contains(topic@) {
                    r == CommandPlan::Act { action: CommandAction::Unsubscribe { topic } }
                } else {
                    &&& r matches CommandPlan::Reject { error }
                    &&& error matches CommandError::UnsubscribeFailed { topic: t, reason }
                    &&& t@ == topic@
                    &&& reason@ == "not subscribed"@
                }
            },
            NetworkCommand::Publish { topic, payload } => {
                if state.topics().contains(topic@) {
                    r == CommandPlan::Act { action: CommandAction::Publish { topic, payload } }
                } else {
                    &&& r matches CommandPlan::Reject { error }
                    &&& error matches CommandError::PublishFailed { topic: t, reason }
                    &&& t@ == topic@
                    &&& reason@ == "not subscribed"@
                }
            },
            NetworkCommand::PutRecord { key, value } => r == CommandPlan::Act {
                action: CommandAction::PutRecord { key, value },
            },
            NetworkCommand::GetRecord { key } => r == CommandPlan::Act {
                action: CommandAction::GetRecord { key },
            },
            NetworkCommand::StartProviding { key } => r == CommandPlan::Act {
                action: CommandAction::StartProviding { key },
            },
            NetworkCommand::GetProviders { key } => r == CommandPlan::Act {
                action: CommandAction::GetProviders { key },
            },
        },
{
    match cmd {
        NetworkCommand::Shutdown => CommandPlan::Shutdown,
        NetworkCommand::Dial { addr } => CommandPlan::Act {
            action: CommandAction::Dial { addr },
        },
        NetworkCommand::Subscribe { topic } => CommandPlan::Act {
            action: CommandAction::Subscribe { topic },
        },
        NetworkCommand::Unsubscribe { topic } => {
            if state.is_subscribed(&topic) {
                CommandPlan::Act { action: CommandAction::Unsubscribe { topic } }
            } else {
                CommandPlan::Reject {
                    error: CommandError::UnsubscribeFailed {
                        topic: String::from_str(topic.as_str()),
                        reason: String::from_str("not subscribed"),
                    },
                }
            }
        },
        NetworkCommand::Publish { topic, payload } => {
            if state.is_subscribed(&topic) {
                CommandPlan::Act { action: CommandAction::Publish { topic, payload } }
            } else {
                CommandPlan::Reject {
                    error: CommandError::PublishFailed {
                        topic: String::from_str(topic.as_str()),
                        reason: String::from_str("not subscribed"),
                    },
                }
            }
        },
        NetworkCommand::PutRecord { key, value } => CommandPlan::Act {
            action: CommandAction::PutRecord { key, value },
        },
        NetworkCommand::GetRecord { key } => CommandPlan::Act {
            action: CommandAction::GetRecord { key },
        },
        NetworkCommand::StartProviding { key } => CommandPlan::Act {
            action: CommandAction::StartProviding { key },
        },
        NetworkCommand::GetProviders { key } => CommandPlan::Act {
            action: CommandAction::GetProviders { key },
        },
    }
}

/// The event surfaced when a command that reached the actor is
/// rejected by a pre-check or by the swarm.
pub fn command_failed_event(error: &CommandError) -> (r: NetworkEvent)
    ensures
        r matches NetworkEvent::CommandFailed { reason } && reason@ == error.message_spec(),
{
    NetworkEvent::CommandFailed { reason: error.message() }
}

/// Whether the event is a `PeerConnected` for the peer.
pub open spec fn is_peer_connected_event(ev: NetworkEvent, p: Seq<u8>) -> bool {
    ev matches NetworkEvent::PeerConnected { peer_id } && peer_id@ == p
}

/// Whether the event is a `PeerDisconnected` for the peer.
pub open spec fn is_peer_disconnected_event(ev: NetworkEvent, p: Seq<u8>) -> bool {
    ev matches NetworkEvent::PeerDisconnected { peer_id } && peer_id@ == p
}

/// Whether the events hold a `PeerConnected` for the peer.
pub open spec fn emits_peer_connected(events: Seq<NetworkEvent>, p: Seq<u8>) -> bool {
    exists|k: int| 0 <= k < events.len() && #[trigger] is_peer_connected_event(events[k], p)
}

/// Whether the events hold a `PeerDisconnected` for the peer.
pub open spec fn emits_peer_disconnected(events: Seq<NetworkEvent>, p: Seq<u8>) -> bool {
    exists|k: int| 0 <= k < events.len() && #[trigger] is_peer_disconnected_event(events[k], p)
}

/// How one actor step may move the connected-peer set: a peer is in
/// the set after the step iff it just connected, or was there and did
/// not just disconnect.
pub open spec fn peer_step_ok(
    pre: NetworkState,
    events: Seq<NetworkEvent>,
    post: NetworkState,
) -> bool {
    &&& forall|p: Seq<u8>| #[trigger]
        emits_peer_connected(events, p) ==> post.peers().contains(p)
    &&& forall|p: Seq<u8>| #[trigger]
        emits_peer_disconnected(events, p) ==> !post.peers().contains(p)
    &&& forall|p: Seq<u8>|
        pre.peers().contains(p) && !emits_peer_disconnected(events, p) ==> #[trigger] post.peers().contains(p)
    &&& forall|p: Seq<u8>|
        !pre.peers().contains(p) && !emits_peer_connected(events, p) ==> !(#[trigger] post.peers().contains(p))
}

/// Routes one raw swarm event: only the first established connection
/// to a peer, and the close of its last connection, are material;
/// sub-behavior events go to their handlers; everything else is
/// ignored.
pub fn handle_swarm_event(state: &mut NetworkState, event: RawSwarmEvent) -> (r: (
    Vec<NetworkEvent>,
    Vec<SwarmAction>,
))
    requires
        old(state).wf(),
    ensures
        final(state).wf(),
        final(state).local_peer_id == old(state).local_peer_id,
        peer_step_ok(*old(state), r.0@, *final(state)),
        match event {
            RawSwarmEvent::ConnectionEstablished { peer_id, remote_addr, num_established } => {
                if num_established == 1 {
                    &&& final(state).peers() == old(state).peers().insert(peer_id@)
                    &&& final(state).subscribed_topics == old(state).subscribed_topics
                    &&& final(state).pending_queries == old(state).pending_queries
                    &&& r.0@.len() == 1
                    &&& r.0@[0] matches NetworkEvent::PeerConnected { peer_id: p } && p@
                        == peer_id@
                    &&& r.1@.len() == 2
                    &&& r.1@[0] matches SwarmAction::AddExplicitPeer { peer_id: p } && p@
                        == peer_id@
                    &&& r.1@[1] matches SwarmAction::AddKadAddress { peer_id: p, addr } && p@
                        == peer_id@ && addr@ == remote_addr@
                } else {
                    *final(state) == *old(state) && r.0@.len() == 0 && r.1@.len() == 0
                }
            },
            RawSwarmEvent::ConnectionClosed { peer_id, num_established } => {
                if num_established == 0 {
                    &&& final(state).peers() == old(state).peers().remove(peer_id@)
                    &&& final(state).subscribed_topics == old(state).subscribed_topics
                    &&& final(state).pending_queries == old(state).pending_queries
                    &&& r.0@.len() == 1
                    &&& r.0@[0] matches NetworkEvent::PeerDisconnected { peer_id: p } && p@
                        == peer_id@
                    &&& r.1@.len() == 0
                } else {
                    *final(state) == *old(state) && r.0@.len() == 0 && r.1@.len() == 0
                }
            },
            RawSwarmEvent::NewListenAddr { address } => {
                &&& *final(state) == *old(state)
                &&& r.0@.len() == 1
                &&& r.0@[0] matches NetworkEvent::Listening { address: a } && a@ == address@
                &&& r.1@.len() == 0
            },
            RawSwarmEvent::Gossipsub { event: ge } => {
                &&& *final(state) == *old(state)
                &&& r.0@.len() <= 1
                &&& gossip_output(
                    ge,
                    if r.0@.len() == 1 {
                        Some(r.0@[0])
                    } else {
                        None
                    },
                )
                &&& r.1@.len() == 0
            },
            RawSwarmEvent::Kademlia { event: ke } => {
                &&& r.0@.len() <= 1
                &&& kad_output(
                    *old(state),
                    ke,
                    *final(state),
                    if r.0@.len() == 1 {
                        Some(r.0@[0])
                    } else {
                        None
                    },
                )
                &&& r.1@.len() == 0
            },
            RawSwarmEvent::Mdns { event: me } => {
                &&& *final(state) == *old(state)
                &&& match me {
                    MdnsEvent::Discovered { peers } => mdns_output(
                        old(state).local_peer_id@,
                        old(state).peers(),
                        peers@,
                        r.0@,
                        r.1@,
                    ),
                    MdnsEvent::Expired => r.0@.len() == 0 && r.1@.len() == 0,
                }
            },
            RawSwarmEvent::Other => {
                *final(state) == *old(state) && r.0@.len() == 0 && r.1@.len() == 0
            },
        },
{
    let mut events: Vec<NetworkEvent> = Vec::new();
    let mut actions: Vec<SwarmAction> = Vec::new();
    match event {
        RawSwarmEvent::ConnectionEstablished { peer_id, remote_addr, num_established } => {
            if num_established == 1 {
                let ghost pid = peer_id@;
                state.add_peer(peer_id.clone());
                actions.push(SwarmAction::AddExplicitPeer { peer_id: peer_id.clone() });
                actions.push(
                    SwarmAction::AddKadAddress { peer_id: peer_id.clone(), addr: remote_addr },
                );
                events.push(NetworkEvent::PeerConnected { peer_id });
                proof {
                    assert forall|p: Seq<u8>| #[trigger] emits_peer_connected(events@, p)
                        implies state.peers().contains(p) by {
                        let k = choose|k: int|
                            0 <= k < events@.len() && is_peer_connected_event(events@[k], p);
                        assert(k == 0 && p == pid);
                    }
                    assert forall|p: Seq<u8>| #[trigger] emits_peer_disconnected(events@, p)
                        implies !state.peers().contains(p) by {
                        let k = choose|k: int|
                            0 <= k < events@.len() && is_peer_disconnected_event(events@[k], p);
                        assert(false);
                    }
                    assert forall|p: Seq<u8>|
                        !old(state).peers().contains(p) && !emits_peer_connected(events@, p)
                        implies !(#[trigger] state.peers().contains(p)) by {
                        if p == pid {
                            assert(is_peer_connected_event(events@[0], p));
                            assert(emits_peer_connected(events@, p));
                        }
                    }
                }
            }
        },
        RawSwarmEvent::ConnectionClosed { peer_id, num_established } => {
            if num_established == 0 {
                let ghost pid = peer_id@;
                state.remove_peer(&peer_id);
                events.push(NetworkEvent::PeerDisconnected { peer_id });
                proof {
                    assert forall|p: Seq<u8>| #[trigger] emits_peer_connected(events@, p)
                        implies state.peers().contains(p) by {
                        let k = choose|k: int|
                            0 <= k < events@.len() && is_peer_connected_event(events@[k], p);
                        assert(false);
                    }
                    assert forall|p: Seq<u8>| #[trigger] emits_peer_disconnected(events@, p)
                        implies !state.peers().contains(p) by {
                        let k = choose|k: int|
                            0 <= k < events@.len() && is_peer_disconnected_event(events@[k], p);
                        assert(k == 0 && p == pid);
                    }
                    assert forall|p: Seq<u8>|
                        old(state).peers().contains(p) && !emits_peer_disconnected(events@, p)
                        implies #[trigger] state.peers().contains(p) by {
                        if p == pid {
                            assert(is_peer_disconnected_event(events@[0], p));
                            assert(emits_peer_disconnected(events@, p));
                        }
                    }
                }
            }
        },
        RawSwarmEvent::NewListenAddr { address } => {
            events.push(NetworkEvent::Listening { address });
            proof {
                lemma_step_no_conn_events(*old(state), events@, *state);
            }
        },
        RawSwarmEvent::Gossipsub { event: ge } => {
            let out = GossipsubHandler::handle(ge);
            if let Some(ev) = out {
                events.push(ev);
            }
            proof {
                assert(forall|k: int|
                    0 <= k < events@.len() ==> !((#[trigger] events@[k]) is PeerConnected) && !(
                    events@[k] is PeerDisconnected));
                lemma_step_no_conn_events(*old(state), events@, *state);
            }
        },
        RawSwarmEvent::Kademlia { event: ke } => {
            let out = KademliaHandler::handle(state, ke);
            if let Some(ev) = out {
                events.push(ev);
            }
            proof {
                assert(state.connected_peers == old(state).connected_peers);
                assert(state.peers() =~= old(state).peers());
                assert(forall|k: int|
                    0 <= k < events@.len() ==> !((#[trigger] events@[k]) is PeerConnected) && !(
                    events@[k] is PeerDisconnected));
                lemma_step_no_conn_events(*old(state), events@, *state);
            }
        },
        RawSwarmEvent::Mdns { event: me } => {
            let ghost me_ghost = me;
            let (evs, acts) = MdnsHandler::handle(state, me);
            events = evs;
            actions = acts;
            proof {
                match me_ghost {
                    MdnsEvent::Discovered { peers } => {
                        crate::handlers::mdns::lemma_mdns_output_events(
                            state.local_peer_id@,
                            state.peers(),
                            peers@,
                            events@,
                            actions@,
                        );
                    },
                    MdnsEvent::Expired => {},
                }
                lemma_step_no_conn_events(*old(state), events@, *state);
            }
        },
        RawSwarmEvent::Other => {},
    }
    (events, actions)
}

/// A step that touches no connection state and reports no connection
/// change moves no peer in or out of the connected set.
proof fn lemma_step_no_conn_events(
    pre: NetworkState,
    events: Seq<NetworkEvent>,
    post: NetworkState,
)
    requires
        forall|k: int|
            0 <= k < events.len() ==> !((#[trigger] events[k]) is PeerConnected) && !(events[k]
                is PeerDisconnected),
        post.peers() == pre.peers(),
    ensures
        peer_step_ok(pre, events, post),
{
    assert forall|p: Seq<u8>| #[trigger] emits_peer_connected(events, p)
        implies post.peers().contains(p) by {
        let k = choose|k: int| 0 <= k < events.len() && is_peer_connected_event(events[k], p);
        assert(false);
    }
    assert forall|p: Seq<u8>| #[trigger] emits_peer_disconnected(events, p)
        implies !post.peers().contains(p) by {
        let k = choose|k: int| 0 <= k < events.len() && is_peer_disconnected_event(events[k], p);
        assert(false);
    }
}

/// Law: between a step that reports `PeerConnected(p)` and the first
/// later step that reports `PeerDisconnected(p)`, the peer stays in the
/// connected set. `states` are the actor states around each step and
/// `emitted[k]` the events of the step from `states[k]` to
/// `states[k + 1]`; every step of `handle_swarm_event` moves the set as
/// `peer_step_ok` allows.
pub proof fn lemma_peer_connected_between(
    states: Seq<NetworkState>,
    emitted: Seq<Seq<NetworkEvent>>,
    p: Seq<u8>,
    i: int,
    j: int,
)
    requires
        states.len() == emitted.len() + 1,
        forall|k: int|
            0 <= k < emitted.len() ==> peer_step_ok(states[k], #[trigger] emitted[k], states[k + 1]),
        0 <= i <= j < emitted.len(),
        emits_peer_connected(emitted[i], p),
        forall|k: int| i < k <= j ==> !emits_peer_disconnected(#[trigger] emitted[k], p),
    ensures
        forall|k: int| i < k <= j + 1 ==> #[trigger] states[k].peers().contains(p),
    decreases j - i,
{
    if j == i {
        assert(states[i + 1].peers().contains(p));
    } else {
        lemma_peer_connected_between(states, emitted, p, i, j - 1);
        assert(states[j].peers().contains(p));
        assert(peer_step_ok(states[j], emitted[j], states[j + 1]));
        assert(!emits_peer_disconnected(emitted[j], p));
        assert(states[j + 1].peers().contains(p));
    }
}

/// Whether a step moved the correlation map from `pre` to `post` in one
/// of the ways the actor allows: leaving it alone, inserting one absent
/// id, or removing one present id.
pub open spec fn query_step_ok(
    pre: Map<u64, PendingQuery>,
    post: Map<u64, PendingQuery>,
) -> bool {
    ||| post == pre
    ||| exists|id: u64, q: PendingQuery| !pre.contains_key(id) && post == pre.insert(id, q)
    ||| exists|id: u64| #[trigger] pre.contains_key(id) && post == pre.remove(id)
}

/// Whether the step from `maps[k]` to `maps[k + 1]` removed the entry
/// of this id — the moment its terminal event is emitted.
pub open spec fn completes_query(maps: Seq<Map<u64, PendingQuery>>, k: int, id: u64) -> bool {
    maps[k].contains_key(id) && !maps[k + 1].contains_key(id)
}

/// Whether the step from `maps[k]` to `maps[k + 1]` inserted an entry
/// for this id.
pub open spec fn inserts_query(maps: Seq<Map<u64, PendingQuery>>, k: int, id: u64) -> bool {
    !maps[k].contains_key(id) && maps[k + 1].contains_key(id)
}

/// Whether every id entering the correlation map is new to the whole
/// run, as query ids are unique for the lifetime of the actor.
pub open spec fn query_ids_fresh(maps: Seq<Map<u64, PendingQuery>>) -> bool {
    forall|k: int, m: int, id: u64|
        0 <= m <= k < maps.len() - 1 && #[trigger] inserts_query(maps, k, id)
            ==> !(#[trigger] maps[m].contains_key(id))
}

/// An id absent at `a` and present at `b` was inserted by some step in
/// between.
proof fn lemma_query_reappearance(
    maps: Seq<Map<u64, PendingQuery>>,
    id: u64,
    a: int,
    b: int,
) -> (m: int)
    requires
        0 <= a < b < maps.len(),
        !maps[a].contains_key(id),
        maps[b].contains_key(id),
    ensures
        a <= m < b,
        inserts_query(maps, m, id),
    decreases b - a,
{
    if maps[a + 1].contains_key(id) {
        a
    } else {
        lemma_query_reappearance(maps, id, a + 1, b)
    }
}

/// Law: the correlation entry of a query is removed — and with it the
/// query's terminal event emitted — at most once in a run. `maps` are
/// the correlation maps around each step; commands insert ids the DHT
/// sub-behavior just issued, unique for the actor's lifetime, and
/// terminal results remove one entry, as `track_query` and
/// `complete_query` ensure.
pub proof fn lemma_query_completed_once(
    maps: Seq<Map<u64, PendingQuery>>,
    id: u64,
    k1: int,
    k2: int,
)
    requires
        query_ids_fresh(maps),
        0 <= k1 <= k2 < maps.len() - 1,
        completes_query(maps, k1, id),
        completes_query(maps, k2, id),
    ensures
        k1 == k2,
{
    if k1 < k2 {
        let m = lemma_query_reappearance(maps, id, k1 + 1, k2);
        assert(inserts_query(maps, m, id));
        assert(!maps[k1].contains_key(id));
        assert(false);
    }
}

} // verus!
