//! Translates gossip sub-behavior events into actor events.

use vstd::prelude::*;
use crate::commands::NetworkEvent;
use crate::types::{GossipPayload, PeerId, TopicName, GOSSIP_PAYLOAD_MAX_LEN};

verus! {

/// A gossip sub-behavior event, carried as the plain values the
/// handler reads: the echoed topic hash in its string form, the raw
/// message bytes, and the optional source peer.
#[derive(Debug, Clone, PartialEq, Eq)]
pub enum GossipEvent {
    Message { source: Option<PeerId>, topic: String, data: Vec<u8> },
    Subscribed { peer_id: PeerId, topic: String },
    Unsubscribed { peer_id: PeerId, topic: String },
    Other,
}

/// What the gossip handler emits for a raw event. A message's payload
/// is taken as-is when it fits the local size invariant and replaced by
/// the empty payload otherwise: the invariant is advisory, peers may
/// send what they send.
pub open spec fn gossip_output(event: GossipEvent, r: Option<NetworkEvent>) -> bool {
    match event {
        GossipEvent::Message { source, topic, data } => {
            &&& r matches Some(ev)
            &&& ev matches NetworkEvent::GossipMessage { source: s, topic: t, payload: p }
            &&& s == source
            &&& t@ == topic@
            &&& p@ == if data@.len() <= GOSSIP_PAYLOAD_MAX_LEN {
                data@
            } else {
                Seq::<u8>::empty()
            }
        },
        GossipEvent::Subscribed { peer_id, topic } => {
            &&& r matches Some(ev)
            &&& ev matches NetworkEvent::PeerSubscribed { peer_id: p, topic: t }
            &&& p == peer_id
            &&& t@ == topic@
        },
        GossipEvent::Unsubscribed { peer_id, topic } => {
            &&& r matches Some(ev)
            &&& ev matches NetworkEvent::PeerUnsubscribed { peer_id: p, topic: t }
            &&& p == peer_id
            &&& t@ == topic@
        },
        GossipEvent::Other => r is None,
    }
}

pub struct GossipsubHandler;

impl GossipsubHandler {
    /// Maps a raw gossip event to the actor event it surfaces, if any.
    /// The echoed topic string is round-tripped into a `TopicName`
    /// without re-validation.
    pub fn handle(event: GossipEvent) -> (r: Option<NetworkEvent>)
        ensures
            gossip_output(event, r),
    {
        match event {
            GossipEvent::Message { source, topic, data } => {
                let payload = match GossipPayload::new(data) {
                    Ok(p) => p,
                    Err(_) => GossipPayload::empty(),
                };
                Some(
                    NetworkEvent::GossipMessage {
                        source,
                        topic: TopicName::new_unchecked(topic),
                        payload,
                    },
                )
            },
            GossipEvent::Subscribed { peer_id, topic } => {
                Some(
                    NetworkEvent::PeerSubscribed { peer_id, topic: TopicName::new_unchecked(topic) },
                )
            },
            GossipEvent::Unsubscribed { peer_id, topic } => {
                Some(
                    NetworkEvent::PeerUnsubscribed {
                        peer_id,
                        topic: TopicName::new_unchecked(topic),
                    },
                )
            },
            GossipEvent::Other => None,
        }
    }
}

} // verus!
