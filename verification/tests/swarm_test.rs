use peernet::swarm::{format_decimal, listen_address, record_initial_subscriptions};
use peernet::{
    CommandError, InputCommand, NetworkCommand, NetworkConfig, NetworkEvent, NetworkState, PeerId,
    PeernetError, SwarmConfig, TopicName, DEFAULT_TOPIC, KADEMLIA_PROTOCOL,
};

fn assert_send<T: Send>() {}
fn assert_sync<T: Sync>() {}

#[test]
fn commands_are_send_and_sync() {
    assert_send::<NetworkCommand>();
    assert_send::<NetworkEvent>();
    assert_sync::<NetworkCommand>();
    assert_sync::<NetworkEvent>();
}

#[test]
fn input_commands_are_send() {
    assert_send::<InputCommand>();
    assert_send::<PeernetError>();
    assert_send::<CommandError>();
}

#[test]
fn swarm_config_defaults() {
    let c = SwarmConfig::default();
    assert_eq!(c.mdns_query_interval_ms, 5000);
    assert_eq!(c.gossipsub_heartbeat_ms, 1000);
    assert_eq!(c.kademlia_replication, 3);
    assert!(c.replication_valid());
    assert_eq!(c.initial_topics.len(), 1);
    assert_eq!(c.initial_topics[0].as_str(), DEFAULT_TOPIC);
}

#[test]
fn network_config_defaults() {
    let c = NetworkConfig::default();
    assert_eq!(c.port, 0);
    assert_eq!(c.swarm, SwarmConfig::default());
}

#[test]
fn replication_must_be_positive() {
    let mut c = SwarmConfig::default();
    c.kademlia_replication = 0;
    assert!(!c.replication_valid());
}

#[test]
fn protocol_identifiers() {
    assert_eq!(DEFAULT_TOPIC, "peernet-global");
    assert_eq!(KADEMLIA_PROTOCOL, "/peernet/kad/1.0.0");
}

#[test]
fn decimal_formatting() {
    assert_eq!(format_decimal(0), "0");
    assert_eq!(format_decimal(7), "7");
    assert_eq!(format_decimal(40010), "40010");
    assert_eq!(format_decimal(65535), "65535");
}

#[test]
fn listen_address_format() {
    assert_eq!(listen_address(0), "/ip4/0.0.0.0/tcp/0");
    assert_eq!(listen_address(4001), "/ip4/0.0.0.0/tcp/4001");
}

#[test]
fn startup_records_initial_topics() {
    let mut state = NetworkState::new(PeerId::new(vec![1]));
    let topics = vec![
        TopicName::new("peernet-global".to_string()).unwrap(),
        TopicName::new("extra".to_string()).unwrap(),
    ];
    record_initial_subscriptions(&mut state, &topics);
    assert!(state.is_subscribed(&topics[0]));
    assert!(state.is_subscribed(&topics[1]));
}

#[test]
fn error_messages_match_their_fields() {
    let e = PeernetError::SendFailed { actor: "network" };
    assert_eq!(e.message(), "send failed to network actor: channel closed");
    let e = PeernetError::ValidationFailed { field: "topic", reason: "cannot be empty" };
    assert_eq!(e.message(), "validation failed: topic cannot be empty");
    let e = PeernetError::ChannelClosed { actor: "network", reason: "closed before startup" };
    assert_eq!(e.message(), "channel closed: network actor, closed before startup");
    let e = PeernetError::Transport { reason: "no transport".to_string() };
    assert_eq!(e.message(), "transport error: no transport");
}

#[test]
fn command_error_messages_match_their_fields() {
    let e = CommandError::PublishFailed { topic: "t".to_string(), reason: "r".to_string() };
    assert_eq!(e.message(), "publish failed on topic t: r");
    let e = CommandError::SubscribeFailed { topic: "t".to_string(), reason: "r".to_string() };
    assert_eq!(e.message(), "subscribe failed on topic t: r");
    let e = CommandError::UnsubscribeFailed { topic: "t".to_string(), reason: "r".to_string() };
    assert_eq!(e.message(), "unsubscribe failed on topic t: r");
    let e = CommandError::DialFailed { addr: "a".to_string(), reason: "r".to_string() };
    assert_eq!(e.message(), "dial failed to a: r");
    let e = CommandError::DhtFailed { key: "k".to_string(), reason: "r".to_string() };
    assert_eq!(e.message(), "dht operation failed for key k: r");
}
