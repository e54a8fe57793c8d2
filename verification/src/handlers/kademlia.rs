//! Translates DHT sub-behavior events into actor events, correlating
//! terminal query results with the commands that issued them.

use vstd::prelude::*;
use crate::commands::NetworkEvent;
use crate::state::{NetworkState, PendingQuery};
use crate::types::{DhtValue, PeerId, DHT_VALUE_MAX_LEN};

verus! {

/// The terminal outcome of an outbound DHT query, or a notification
/// the handler ignores, carried as plain values.
#[derive(Debug, Clone, PartialEq, Eq)]
pub enum QueryOutcome {
    GetRecordFound { value: Vec<u8> },
    GetRecordErr,
    PutRecordOk,
    PutRecordErr { reason: String },
    StartProvidingOk,
    GetProvidersFound { providers: Vec<PeerId> },
    Other,
}

/// A DHT sub-behavior event.
#[derive(Debug, Clone, PartialEq, Eq)]
pub enum KadEvent {
    OutboundQueryProgressed { id: u64, result: QueryOutcome },
    RoutingUpdated { peer_id: PeerId },
    Other,
}

/// Whether the outcome is a terminal result the handler acts on.
pub open spec fn is_terminal(result: QueryOutcome) -> bool {
    !(result is Other)
}

/// The terminal event determined jointly by the originating command
/// and the result kind. A mismatched pair yields no event. A found
/// record's value is taken as-is when it fits the local size invariant
/// and replaced by the empty value otherwise.
pub open spec fn completion_event(
    pending: PendingQuery,
    result: QueryOutcome,
    r: Option<NetworkEvent>,
) -> bool {
    match (pending, result) {
        (PendingQuery::GetRecord(key), QueryOutcome::GetRecordFound { value }) => {
            &&& r matches Some(ev)
            &&& ev matches NetworkEvent::RecordFound { key: k, value: v }
            &&& k == key
            &&& v@ == if value@.len() <= DHT_VALUE_MAX_LEN {
                value@
            } else {
                Seq::<u8>::empty()
            }
        },
        (PendingQuery::GetRecord(key), QueryOutcome::GetRecordErr) => {
            &&& r matches Some(ev)
            &&& ev == NetworkEvent::RecordNotFound { key }
        },
        (PendingQuery::PutRecord(key), QueryOutcome::PutRecordOk) => {
            &&& r matches Some(ev)
            &&& ev == NetworkEvent::RecordStored { key }
        },
        (PendingQuery::PutRecord(key), QueryOutcome::PutRecordErr { reason }) => {
            &&& r matches Some(ev)
            &&& ev == NetworkEvent::RecordStoreFailed { key, reason }
        },
        (PendingQuery::StartProviding(key), QueryOutcome::StartProvidingOk) => {
            &&& r matches Some(ev)
            &&& ev == NetworkEvent::ProviderRecordStored { key }
        },
        (PendingQuery::GetProviders(key), QueryOutcome::GetProvidersFound { providers }) => {
            &&& r matches Some(ev)
            &&& ev == NetworkEvent::ProvidersFound { key, providers }
        },
        _ => r is None,
    }
}

/// The full effect of the DHT handler: a routing update is forwarded
/// unconditionally; a terminal result removes exactly one correlation
/// entry and emits the matching terminal event; everything else is
/// silently dropped and leaves the state unchanged.
pub open spec fn kad_output(
    pre: NetworkState,
    event: KadEvent,
    post: NetworkState,
    r: Option<NetworkEvent>,
) -> bool {
    match event {
        KadEvent::OutboundQueryProgressed { id, result } => {
            if is_terminal(result) && pre.has_query(id) {
                &&& post.queries() == pre.queries().remove(id)
                &&& post.local_peer_id == pre.local_peer_id
                &&& post.connected_peers == pre.connected_peers
                &&& post.subscribed_topics == pre.subscribed_topics
                &&& completion_event(pre.queries()[id], result, r)
            } else {
                post == pre && r is None
            }
        },
        KadEvent::RoutingUpdated { peer_id } => {
            &&& post == pre
            &&& r matches Some(ev)
            &&& ev == NetworkEvent::RoutingUpdated { peer_id }
        },
        KadEvent::Other => post == pre && r is None,
    }
}

pub struct KademliaHandler;

impl KademliaHandler {
    /// Consumes one DHT sub-behavior event, updating the correlation
    /// map and producing the event to surface, if any.
    pub fn handle(state: &mut NetworkState, event: KadEvent) -> (r: Option<NetworkEvent>)
        requires
            old(state).wf(),
        ensures
            final(state).wf(),
            kad_output(*old(state), event, *final(state), r),
    {
        match event {
            KadEvent::OutboundQueryProgressed { id, result } => {
                match result {
                    QueryOutcome::Other => None,
                    terminal => {
                        match state.complete_query(id) {
                            None => None,
                            Some(pending) => Self::completion(pending, terminal),
                        }
                    },
                }
            },
            KadEvent::RoutingUpdated { peer_id } => {
                Some(NetworkEvent::RoutingUpdated { peer_id })
            },
            KadEvent::Other => None,
        }
    }

    /// Builds the terminal event for a removed correlation entry.
    fn completion(pending: PendingQuery, result: QueryOutcome) -> (r: Option<NetworkEvent>)
        requires
            is_terminal(result),
        ensures
            completion_event(pending, result, r),
    {
        match (pending, result) {
            (PendingQuery::GetRecord(key), QueryOutcome::GetRecordFound { value }) => {
                let v = match DhtValue::new(value) {
                    Ok(v) => v,
                    Err(_) => DhtValue::empty(),
                };
                Some(NetworkEvent::RecordFound { key, value: v })
            },
            (PendingQuery::GetRecord(key), QueryOutcome::GetRecordErr) => {
                Some(NetworkEvent::RecordNotFound { key })
            },
            (PendingQuery::PutRecord(key), QueryOutcome::PutRecordOk) => {
                Some(NetworkEvent::RecordStored { key })
            },
            (PendingQuery::PutRecord(key), QueryOutcome::PutRecordErr { reason }) => {
                Some(NetworkEvent::RecordStoreFailed { key, reason })
            },
            (PendingQuery::StartProviding(key), QueryOutcome::StartProvidingOk) => {
                Some(NetworkEvent::ProviderRecordStored { key })
            },
            (PendingQuery::GetProviders(key), QueryOutcome::GetProvidersFound { providers }) => {
                Some(NetworkEvent::ProvidersFound { key, providers })
            },
            _ => None,
        }
    }
}

} // verus!
