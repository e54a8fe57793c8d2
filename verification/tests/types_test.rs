use peernet::{DhtKey, DhtValue, GossipPayload, PeerId, PeernetError, TopicName};

#[test]
fn dht_key_validates_empty() {
    assert!(DhtKey::new("".to_string()).is_err());
}

#[test]
fn dht_key_validates_length() {
    let long_key = "x".repeat(257);
    assert!(DhtKey::new(long_key).is_err());
}

#[test]
fn dht_key_validates_null_byte() {
    assert!(DhtKey::new("hello\0world".to_string()).is_err());
}

#[test]
fn dht_key_accepts_valid() {
    assert!(DhtKey::new("valid-key".to_string()).is_ok());
}

#[test]
fn dht_value_validates_size() {
    let big_value = vec![0u8; 65537];
    assert!(DhtValue::new(big_value).is_err());
}

#[test]
fn topic_name_validates_empty() {
    assert!(TopicName::new("".to_string()).is_err());
}

#[test]
fn dht_key_boundary_lengths() {
    assert!(DhtKey::new("x".repeat(256)).is_ok());
    assert!(DhtKey::new("x".repeat(257)).is_err());
}

#[test]
fn dht_key_error_names_field_and_reason() {
    match DhtKey::new("".to_string()) {
        Err(PeernetError::ValidationFailed { field, reason }) => {
            assert_eq!(field, "dht_key");
            assert_eq!(reason, "cannot be empty");
        }
        other => panic!("expected validation failure, got {other:?}"),
    }
    match DhtKey::new("a\0b".to_string()) {
        Err(PeernetError::ValidationFailed { field, reason }) => {
            assert_eq!(field, "dht_key");
            assert_eq!(reason, "contains null byte");
        }
        other => panic!("expected validation failure, got {other:?}"),
    }
    match DhtKey::new("k".repeat(300)) {
        Err(PeernetError::ValidationFailed { field, reason }) => {
            assert_eq!(field, "dht_key");
            assert_eq!(reason, "exceeds 256 characters");
        }
        other => panic!("expected validation failure, got {other:?}"),
    }
}

#[test]
fn dht_key_round_trips_string() {
    let key = DhtKey::new("shared".to_string()).unwrap();
    assert_eq!(key.as_str(), "shared");
}

#[test]
fn dht_value_boundary_lengths() {
    assert!(DhtValue::new(vec![0u8; 65536]).is_ok());
    assert!(DhtValue::new(vec![0u8; 65537]).is_err());
}

#[test]
fn dht_value_accessors() {
    let v = DhtValue::new(vec![0x00, 0x01, 0x02, 0xff, 0xfe]).unwrap();
    assert_eq!(v.as_bytes(), &[0x00, 0x01, 0x02, 0xff, 0xfe]);
    assert_eq!(v.len(), 5);
    assert!(!v.is_empty());
    assert_eq!(v.into_bytes(), vec![0x00, 0x01, 0x02, 0xff, 0xfe]);
    let e = DhtValue::empty();
    assert!(e.is_empty());
    assert_eq!(e.len(), 0);
}

#[test]
fn topic_name_boundary_lengths() {
    assert!(TopicName::new("t".repeat(128)).is_ok());
    assert!(TopicName::new("t".repeat(129)).is_err());
}

#[test]
fn topic_name_unchecked_round_trips() {
    let t = TopicName::new_unchecked("peernet-global".to_string());
    assert_eq!(t.as_str(), "peernet-global");
}

#[test]
fn topic_name_error_names_field() {
    match TopicName::new("".to_string()) {
        Err(PeernetError::ValidationFailed { field, reason }) => {
            assert_eq!(field, "topic");
            assert_eq!(reason, "cannot be empty");
        }
        other => panic!("expected validation failure, got {other:?}"),
    }
}

#[test]
fn gossip_payload_validates_size() {
    assert!(GossipPayload::new(vec![0u8; 1048576]).is_ok());
    assert!(GossipPayload::new(vec![0u8; 1048577]).is_err());
    match GossipPayload::new(vec![0u8; 1048577]) {
        Err(PeernetError::ValidationFailed { field, reason }) => {
            assert_eq!(field, "gossip_payload");
            assert_eq!(reason, "exceeds 1MB limit");
        }
        other => panic!("expected validation failure, got {other:?}"),
    }
}

#[test]
fn gossip_payload_from_text_round_trips() {
    let p = GossipPayload::from_text("hello from node1").unwrap();
    assert_eq!(p.as_bytes(), b"hello from node1");
    assert_eq!(p.as_str(), Some("hello from node1"));
    assert_eq!(p.into_bytes(), b"hello from node1".to_vec());
}

#[test]
fn gossip_payload_as_str_rejects_invalid_utf8() {
    let p = GossipPayload::new(vec![0xff, 0xfe]).unwrap();
    assert_eq!(p.as_str(), None);
}

#[test]
fn gossip_payload_empty_is_empty() {
    let p = GossipPayload::empty();
    assert_eq!(p.as_bytes(), b"");
    assert_eq!(p.as_str(), Some(""));
}

#[test]
fn peer_id_compares_by_bytes() {
    let a = PeerId::new(vec![1, 2, 3]);
    let b = PeerId::new(vec![1, 2, 3]);
    let c = PeerId::new(vec![1, 2, 4]);
    assert!(a.same_peer(&b));
    assert!(!a.same_peer(&c));
    assert!(!b.same_peer(&PeerId::new(vec![1, 2])));
    assert_eq!(a.as_bytes(), &[1, 2, 3]);
    let d = a.clone();
    assert!(d.same_peer(&a));
}
