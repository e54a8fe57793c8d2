use peernet::actor::{command_failed_event, CommandAction, CommandPlan};
use peernet::handlers::gossipsub::GossipEvent;
use peernet::handlers::kademlia::{KadEvent, QueryOutcome};
use peernet::handlers::mdns::MdnsEvent;
use peernet::{
    handle_swarm_event, plan_command, CommandError, DhtKey, DhtValue, GossipPayload,
    GossipsubHandler, KademliaHandler, MdnsHandler, NetworkCommand, NetworkEvent, NetworkState,
    PeerId, PendingQuery, RawSwarmEvent, TopicName,
};

fn fresh_state() -> NetworkState {
    NetworkState::new(PeerId::new(vec![7, 7, 7]))
}

fn topic(name: &str) -> TopicName {
    TopicName::new(name.to_string()).unwrap()
}

fn key(name: &str) -> DhtKey {
    DhtKey::new(name.to_string()).unwrap()
}

#[test]
fn publish_before_subscribe_is_rejected() {
    let state = fresh_state();
    let payload = GossipPayload::from_text("hello").unwrap();
    let plan = plan_command(
        &state,
        NetworkCommand::Publish { topic: topic("unseen"), payload },
    );
    match plan {
        CommandPlan::Reject { error } => {
            match &error {
                CommandError::PublishFailed { topic, reason } => {
                    assert_eq!(topic, "unseen");
                    assert_eq!(reason, "not subscribed");
                }
                other => panic!("expected publish failure, got {other:?}"),
            }
            match command_failed_event(&error) {
                NetworkEvent::CommandFailed { reason } => {
                    assert_eq!(reason, "publish failed on topic unseen: not subscribed");
                }
                other => panic!("expected command failure event, got {other:?}"),
            }
        }
        other => panic!("expected rejection, got {other:?}"),
    }
}

#[test]
fn publish_after_subscribe_is_planned() {
    let mut state = fresh_state();
    state.add_subscription(&topic("seen"));
    let payload = GossipPayload::from_text("hello").unwrap();
    let plan = plan_command(
        &state,
        NetworkCommand::Publish { topic: topic("seen"), payload: payload.clone() },
    );
    assert_eq!(
        plan,
        CommandPlan::Act { action: CommandAction::Publish { topic: topic("seen"), payload } }
    );
}

#[test]
fn unsubscribe_of_unknown_topic_is_rejected() {
    let state = fresh_state();
    match plan_command(&state, NetworkCommand::Unsubscribe { topic: topic("unseen") }) {
        CommandPlan::Reject { error: CommandError::UnsubscribeFailed { topic, reason } } => {
            assert_eq!(topic, "unseen");
            assert_eq!(reason, "not subscribed");
        }
        other => panic!("expected rejection, got {other:?}"),
    }
}

#[test]
fn shutdown_and_dht_commands_are_planned() {
    let state = fresh_state();
    assert_eq!(plan_command(&state, NetworkCommand::Shutdown), CommandPlan::Shutdown);
    assert_eq!(
        plan_command(&state, NetworkCommand::GetRecord { key: key("k") }),
        CommandPlan::Act { action: CommandAction::GetRecord { key: key("k") } }
    );
    assert_eq!(
        plan_command(&state, NetworkCommand::Dial { addr: "/ip4/1.2.3.4/tcp/1".to_string() }),
        CommandPlan::Act { action: CommandAction::Dial { addr: "/ip4/1.2.3.4/tcp/1".to_string() } }
    );
}

#[test]
fn first_connection_is_material() {
    let mut state = fresh_state();
    let p = PeerId::new(vec![1, 2]);
    let (events, actions) = handle_swarm_event(
        &mut state,
        RawSwarmEvent::ConnectionEstablished {
            peer_id: p.clone(),
            remote_addr: "/ip4/10.0.0.2/tcp/4001".to_string(),
            num_established: 1,
        },
    );
    assert_eq!(events, vec![NetworkEvent::PeerConnected { peer_id: p.clone() }]);
    assert_eq!(actions.len(), 2);
    assert!(state.is_connected(&p));

    let (events, actions) = handle_swarm_event(
        &mut state,
        RawSwarmEvent::ConnectionEstablished {
            peer_id: p.clone(),
            remote_addr: "/ip4/10.0.0.2/tcp/4001".to_string(),
            num_established: 2,
        },
    );
    assert!(events.is_empty());
    assert!(actions.is_empty());
    assert!(state.is_connected(&p));
}

#[test]
fn last_close_disconnects() {
    let mut state = fresh_state();
    let p = PeerId::new(vec![1, 2]);
    state.add_peer(p.clone());
    let (events, _) = handle_swarm_event(
        &mut state,
        RawSwarmEvent::ConnectionClosed { peer_id: p.clone(), num_established: 1 },
    );
    assert!(events.is_empty());
    assert!(state.is_connected(&p));
    let (events, _) = handle_swarm_event(
        &mut state,
        RawSwarmEvent::ConnectionClosed { peer_id: p.clone(), num_established: 0 },
    );
    assert_eq!(events, vec![NetworkEvent::PeerDisconnected { peer_id: p.clone() }]);
    assert!(!state.is_connected(&p));
}

#[test]
fn new_listen_addr_is_surfaced() {
    let mut state = fresh_state();
    let (events, actions) = handle_swarm_event(
        &mut state,
        RawSwarmEvent::NewListenAddr { address: "/ip4/127.0.0.1/tcp/4001".to_string() },
    );
    assert_eq!(
        events,
        vec![NetworkEvent::Listening { address: "/ip4/127.0.0.1/tcp/4001".to_string() }]
    );
    assert!(actions.is_empty());
}

#[test]
fn gossip_message_is_surfaced() {
    let p = PeerId::new(vec![9]);
    let out = GossipsubHandler::handle(GossipEvent::Message {
        source: Some(p.clone()),
        topic: "peernet-global".to_string(),
        data: b"hello from node1".to_vec(),
    });
    match out {
        Some(NetworkEvent::GossipMessage { source, topic, payload }) => {
            assert_eq!(source, Some(p));
            assert_eq!(topic.as_str(), "peernet-global");
            assert_eq!(payload.as_bytes(), b"hello from node1");
        }
        other => panic!("expected gossip message, got {other:?}"),
    }
}

#[test]
fn oversized_gossip_falls_back_to_empty_payload() {
    let out = GossipsubHandler::handle(GossipEvent::Message {
        source: None,
        topic: "t".to_string(),
        data: vec![0u8; 1048577],
    });
    match out {
        Some(NetworkEvent::GossipMessage { payload, .. }) => {
            assert!(payload.as_bytes().is_empty());
        }
        other => panic!("expected gossip message, got {other:?}"),
    }
}

#[test]
fn peer_subscriptions_are_surfaced() {
    let p = PeerId::new(vec![3]);
    let out = GossipsubHandler::handle(GossipEvent::Subscribed {
        peer_id: p.clone(),
        topic: "news".to_string(),
    });
    match out {
        Some(NetworkEvent::PeerSubscribed { peer_id, topic }) => {
            assert!(peer_id.same_peer(&p));
            assert_eq!(topic.as_str(), "news");
        }
        other => panic!("expected peer subscription, got {other:?}"),
    }
    assert_eq!(GossipsubHandler::handle(GossipEvent::Other), None);
}

#[test]
fn put_then_get_round_trips_through_correlation() {
    let mut state = fresh_state();
    // put: the command is tracked, its terminal result is surfaced
    state.track_query(1, PendingQuery::PutRecord(key("shared")));
    let out = KademliaHandler::handle(
        &mut state,
        KadEvent::OutboundQueryProgressed { id: 1, result: QueryOutcome::PutRecordOk },
    );
    assert_eq!(out, Some(NetworkEvent::RecordStored { key: key("shared") }));
    // get: the stored value comes back for the same key
    state.track_query(2, PendingQuery::GetRecord(key("shared")));
    let out = KademliaHandler::handle(
        &mut state,
        KadEvent::OutboundQueryProgressed {
            id: 2,
            result: QueryOutcome::GetRecordFound { value: b"{\"data\":true}".to_vec() },
        },
    );
    assert_eq!(
        out,
        Some(NetworkEvent::RecordFound {
            key: key("shared"),
            value: DhtValue::new(b"{\"data\":true}".to_vec()).unwrap(),
        })
    );
}

#[test]
fn missing_record_is_reported_not_found() {
    let mut state = fresh_state();
    state.track_query(5, PendingQuery::GetRecord(key("missing")));
    let out = KademliaHandler::handle(
        &mut state,
        KadEvent::OutboundQueryProgressed { id: 5, result: QueryOutcome::GetRecordErr },
    );
    assert_eq!(out, Some(NetworkEvent::RecordNotFound { key: key("missing") }));
}

#[test]
fn store_failure_carries_reason() {
    let mut state = fresh_state();
    state.track_query(6, PendingQuery::PutRecord(key("k")));
    let out = KademliaHandler::handle(
        &mut state,
        KadEvent::OutboundQueryProgressed {
            id: 6,
            result: QueryOutcome::PutRecordErr { reason: "quorum failed".to_string() },
        },
    );
    assert_eq!(
        out,
        Some(NetworkEvent::RecordStoreFailed { key: key("k"), reason: "quorum failed".to_string() })
    );
}

#[test]
fn provider_results_are_surfaced() {
    let mut state = fresh_state();
    state.track_query(7, PendingQuery::StartProviding(key("k")));
    let out = KademliaHandler::handle(
        &mut state,
        KadEvent::OutboundQueryProgressed { id: 7, result: QueryOutcome::StartProvidingOk },
    );
    assert_eq!(out, Some(NetworkEvent::ProviderRecordStored { key: key("k") }));

    let p = PeerId::new(vec![4]);
    state.track_query(8, PendingQuery::GetProviders(key("k")));
    let out = KademliaHandler::handle(
        &mut state,
        KadEvent::OutboundQueryProgressed {
            id: 8,
            result: QueryOutcome::GetProvidersFound { providers: vec![p.clone()] },
        },
    );
    assert_eq!(out, Some(NetworkEvent::ProvidersFound { key: key("k"), providers: vec![p] }));
}

#[test]
fn mismatched_result_is_dropped_but_entry_removed() {
    let mut state = fresh_state();
    state.track_query(9, PendingQuery::GetRecord(key("k")));
    let out = KademliaHandler::handle(
        &mut state,
        KadEvent::OutboundQueryProgressed { id: 9, result: QueryOutcome::PutRecordOk },
    );
    assert_eq!(out, None);
    assert!(!state.query_is_tracked(9));
}

#[test]
fn unknown_query_id_is_dropped() {
    let mut state = fresh_state();
    let out = KademliaHandler::handle(
        &mut state,
        KadEvent::OutboundQueryProgressed { id: 1234, result: QueryOutcome::PutRecordOk },
    );
    assert_eq!(out, None);
}

#[test]
fn non_terminal_progress_keeps_entry() {
    let mut state = fresh_state();
    state.track_query(10, PendingQuery::GetRecord(key("k")));
    let out = KademliaHandler::handle(
        &mut state,
        KadEvent::OutboundQueryProgressed { id: 10, result: QueryOutcome::Other },
    );
    assert_eq!(out, None);
    assert!(state.query_is_tracked(10));
}

#[test]
fn routing_updates_are_forwarded() {
    let mut state = fresh_state();
    let p = PeerId::new(vec![5]);
    let out = KademliaHandler::handle(&mut state, KadEvent::RoutingUpdated { peer_id: p.clone() });
    assert_eq!(out, Some(NetworkEvent::RoutingUpdated { peer_id: p }));
}

#[test]
fn discovery_skips_self_and_connected() {
    let mut state = fresh_state();
    let connected = PeerId::new(vec![1]);
    state.add_peer(connected.clone());
    let fresh = PeerId::new(vec![2]);
    let (events, actions) = MdnsHandler::handle(
        &state,
        MdnsEvent::Discovered {
            peers: vec![
                (PeerId::new(vec![7, 7, 7]), "/ip4/10.0.0.1/tcp/1".to_string()),
                (connected.clone(), "/ip4/10.0.0.2/tcp/2".to_string()),
                (fresh.clone(), "/ip4/10.0.0.3/tcp/3".to_string()),
            ],
        },
    );
    assert_eq!(events, vec![NetworkEvent::PeerDiscovered { peer_id: fresh.clone() }]);
    assert_eq!(actions.len(), 3);
}

#[test]
fn discovery_expiry_is_ignored() {
    let state = fresh_state();
    let (events, actions) = MdnsHandler::handle(&state, MdnsEvent::Expired);
    assert!(events.is_empty());
    assert!(actions.is_empty());
}
