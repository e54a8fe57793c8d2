//! Translates local-discovery events into actor events and the dial
//! chain that follows a discovery.

use vstd::prelude::*;
use crate::commands::{NetworkEvent, SwarmAction};
use crate::state::NetworkState;
use crate::types::PeerId;

verus! {

/// A local-discovery event: a batch of discovered peers with their
/// addresses, or an expiry notification (which is ignored: the
/// connection-closed path already covers loss of contact).
#[derive(Debug, Clone, PartialEq, Eq)]
pub enum MdnsEvent {
    Discovered { peers: Vec<(PeerId, String)> },
    Expired,
}

/// A discovered peer is acted on unless it is the local node itself or
/// is already connected.
pub open spec fn discovery_qualifies(
    local: Seq<u8>,
    connected: Set<Seq<u8>>,
    peer: Seq<u8>,
) -> bool {
    peer != local && !connected.contains(peer)
}

/// The events and actions the discovery handler produces for a batch:
/// for each qualifying peer, one `PeerDiscovered` event and, in order,
/// a DHT routing-table entry, a swarm address registration, and a
/// dial.
pub open spec fn mdns_output(
    local: Seq<u8>,
    connected: Set<Seq<u8>>,
    peers: Seq<(PeerId, String)>,
    events: Seq<NetworkEvent>,
    actions: Seq<SwarmAction>,
) -> bool
    decreases peers.len(),
{
    if peers.len() == 0 {
        events.len() == 0 && actions.len() == 0
    } else {
        let pr = peers.last();
        if discovery_qualifies(local, connected, pr.0@) {
            &&& events.len() >= 1
            &&& actions.len() >= 3
            &&& mdns_output(
                local,
                connected,
                peers.drop_last(),
                events.drop_last(),
                actions.subrange(0, actions.len() - 3),
            )
            &&& events.last() matches NetworkEvent::PeerDiscovered { peer_id } && peer_id@ == pr.0@
            &&& actions[actions.len() - 3] matches SwarmAction::AddKadAddress { peer_id, addr }
                && peer_id@ == pr.0@ && addr@ == pr.1@
            &&& actions[actions.len() - 2] matches SwarmAction::AddSwarmAddress { peer_id, addr }
                && peer_id@ == pr.0@ && addr@ == pr.1@
            &&& actions[actions.len() - 1] matches SwarmAction::Dial { peer_id } && peer_id@
                == pr.0@
        } else {
            mdns_output(local, connected, peers.drop_last(), events, actions)
        }
    }
}

/// Every event the discovery handler produces is a `PeerDiscovered`:
/// discovery alone never reports a connection change.
pub proof fn lemma_mdns_output_events(
    local: Seq<u8>,
    connected: Set<Seq<u8>>,
    peers: Seq<(PeerId, String)>,
    events: Seq<NetworkEvent>,
    actions: Seq<SwarmAction>,
)
    requires
        mdns_output(local, connected, peers, events, actions),
    ensures
        forall|k: int| 0 <= k < events.len() ==> (#[trigger] events[k]) is PeerDiscovered,
    decreases peers.len(),
{
    if peers.len() > 0 {
        let pr = peers.last();
        if discovery_qualifies(local, connected, pr.0@) {
            lemma_mdns_output_events(
                local,
                connected,
                peers.drop_last(),
                events.drop_last(),
                actions.subrange(0, actions.len() - 3),
            );
            assert(forall|k: int|
                0 <= k < events.len() - 1 ==> events[k] == events.drop_last()[k]);
        } else {
            lemma_mdns_output_events(local, connected, peers.drop_last(), events, actions);
        }
    }
}

pub struct MdnsHandler;

impl MdnsHandler {
    /// Consumes one discovery event. The handler mutates no actor
    /// state: a discovered peer enters the connected set only when its
    /// dial later yields a connection-established transition.
    pub fn handle(state: &NetworkState, event: MdnsEvent) -> (r: (
        Vec<NetworkEvent>,
        Vec<SwarmAction>,
    ))
        ensures
            match event {
                MdnsEvent::Discovered { peers } => mdns_output(
                    state.local_peer_id@,
                    state.peers(),
                    peers@,
                    r.0@,
                    r.1@,
                ),
                MdnsEvent::Expired => r.0@.len() == 0 && r.1@.len() == 0,
            },
    {
        let mut events: Vec<NetworkEvent> = Vec::new();
        let mut actions: Vec<SwarmAction> = Vec::new();
        match event {
            MdnsEvent::Discovered { peers } => {
                let n: usize = peers.len();
                let mut i: usize = 0;
                while i < n
                    invariant
                        0 <= i <= n,
                        n == peers@.len(),
                        mdns_output(
                            state.local_peer_id@,
                            state.peers(),
                            peers@.take(i as int),
                            events@,
                            actions@,
                        ),
                    decreases n - i,
                {
                    let ghost pre_events = events@;
                    let ghost pre_actions = actions@;
                    let peer_ref = &peers[i];
                    let qualifies = !peer_ref.0.same_peer(&state.local_peer_id)
                        && !state.is_connected(&peer_ref.0);
                    if qualifies {
                        events.push(NetworkEvent::PeerDiscovered { peer_id: peer_ref.0.clone() });
                        actions.push(
                            SwarmAction::AddKadAddress {
                                peer_id: peer_ref.0.clone(),
                                addr: peer_ref.1.clone(),
                            },
                        );
                        actions.push(
                            SwarmAction::AddSwarmAddress {
                                peer_id: peer_ref.0.clone(),
                                addr: peer_ref.1.clone(),
                            },
                        );
                        actions.push(SwarmAction::Dial { peer_id: peer_ref.0.clone() });
                    }
                    proof {
                        let taken = peers@.take(i + 1);
                        assert(taken.drop_last() =~= peers@.take(i as int));
                        assert(taken.last() == peers@[i as int]);
                        if discovery_qualifies(
                            state.local_peer_id@,
                            state.peers(),
                            peers@[i as int].0@,
                        ) {
                            assert(events@.drop_last() =~= pre_events);
                            assert(actions@.subrange(0, actions@.len() - 3) =~= pre_actions);
                        }
                    }
                    i += 1;
                }
                assert(peers@.take(n as int) =~= peers@);
            },
            MdnsEvent::Expired => {},
        }
        (events, actions)
    }
}

} // verus!
