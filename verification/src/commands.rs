//! The command/event vocabulary: every operation the embedder may
//! request of the actor, and every observation the actor may emit.

use vstd::prelude::*;
use crate::types::{DhtKey, DhtValue, GossipPayload, PeerId, TopicName};

verus! {

/// A command issued by the embedder to the network actor. Addresses
/// travel in their textual multiaddr form.
#[derive(Debug, Clone, PartialEq, Eq)]
pub enum NetworkCommand {
    Shutdown,
    Dial { addr: String },
    Publish { topic: TopicName, payload: GossipPayload },
    Subscribe { topic: TopicName },
    Unsubscribe { topic: TopicName },
    PutRecord { key: DhtKey, value: DhtValue },
    GetRecord { key: DhtKey },
    StartProviding { key: DhtKey },
    GetProviders { key: DhtKey },
}

/// An observation emitted by the actor to the embedder.
#[derive(Debug, Clone, PartialEq, Eq)]
pub enum NetworkEvent {
    Started { local_peer_id: PeerId, listening_on: String },
    ShutdownComplete,
    PeerDiscovered { peer_id: PeerId },
    PeerConnected { peer_id: PeerId },
    PeerDisconnected { peer_id: PeerId },
    Listening { address: String },
    GossipMessage { source: Option<PeerId>, topic: TopicName, payload: GossipPayload },
    Subscribed { topic: TopicName },
    Unsubscribed { topic: TopicName },
    PeerSubscribed { peer_id: PeerId, topic: TopicName },
    PeerUnsubscribed { peer_id: PeerId, topic: TopicName },
    RecordStored { key: DhtKey },
    RecordStoreFailed { key: DhtKey, reason: String },
    RecordFound { key: DhtKey, value: DhtValue },
    RecordNotFound { key: DhtKey },
    ProviderRecordStored { key: DhtKey },
    ProvidersFound { key: DhtKey, providers: Vec<PeerId> },
    RoutingUpdated { peer_id: PeerId },
    CommandFailed { reason: String },
}

/// An operation the actor directs the event loop to perform on the
/// swarm or a sub-behavior, in response to a protocol event.
#[derive(Debug, Clone, PartialEq, Eq)]
pub enum SwarmAction {
    AddExplicitPeer { peer_id: PeerId },
    AddKadAddress { peer_id: PeerId, addr: String },
    AddSwarmAddress { peer_id: PeerId, addr: String },
    Dial { peer_id: PeerId },
}

/// A command read from the interactive input loop.
#[derive(Debug, Clone, PartialEq, Eq)]
pub enum InputCommand {
    Shutdown,
}

} // verus!
