use peernet::{DhtKey, NetworkState, PeerId, PendingQuery, TopicName};

fn fresh_state() -> NetworkState {
    NetworkState::new(PeerId::new(vec![7, 7, 7]))
}

fn topic(name: &str) -> TopicName {
    TopicName::new(name.to_string()).unwrap()
}

fn key(name: &str) -> DhtKey {
    DhtKey::new(name.to_string()).unwrap()
}

#[test]
fn subscriptions_are_recorded_and_removed() {
    let mut state = fresh_state();
    let t = topic("news");
    assert!(!state.is_subscribed(&t));
    state.add_subscription(&t);
    assert!(state.is_subscribed(&t));
    state.remove_subscription(&t);
    assert!(!state.is_subscribed(&t));
}

#[test]
fn subscribe_twice_is_idempotent() {
    let mut once = fresh_state();
    let t = topic("news");
    once.add_subscription(&t);
    let mut twice = once.clone();
    twice.add_subscription(&t);
    assert_eq!(once, twice);
    assert!(twice.is_subscribed(&t));
}

#[test]
fn removing_absent_subscription_changes_nothing() {
    let mut state = fresh_state();
    state.add_subscription(&topic("kept"));
    let before = state.clone();
    state.remove_subscription(&topic("absent"));
    assert_eq!(state, before);
}

#[test]
fn connected_peers_are_tracked() {
    let mut state = fresh_state();
    let p = PeerId::new(vec![1]);
    let q = PeerId::new(vec![2]);
    assert!(!state.is_connected(&p));
    state.add_peer(p.clone());
    state.add_peer(q.clone());
    assert!(state.is_connected(&p));
    assert!(state.is_connected(&q));
    state.remove_peer(&p);
    assert!(!state.is_connected(&p));
    assert!(state.is_connected(&q));
}

#[test]
fn query_completes_exactly_once() {
    let mut state = fresh_state();
    state.track_query(42, PendingQuery::GetRecord(key("shared")));
    assert!(state.query_is_tracked(42));
    let first = state.complete_query(42);
    assert_eq!(first, Some(PendingQuery::GetRecord(key("shared"))));
    assert!(!state.query_is_tracked(42));
    let second = state.complete_query(42);
    assert_eq!(second, None);
}

#[test]
fn queries_are_correlated_by_id() {
    let mut state = fresh_state();
    state.track_query(1, PendingQuery::PutRecord(key("a")));
    state.track_query(2, PendingQuery::GetProviders(key("b")));
    state.track_query(3, PendingQuery::StartProviding(key("c")));
    assert_eq!(state.complete_query(2), Some(PendingQuery::GetProviders(key("b"))));
    assert_eq!(state.complete_query(1), Some(PendingQuery::PutRecord(key("a"))));
    assert_eq!(state.complete_query(3), Some(PendingQuery::StartProviding(key("c"))));
    assert_eq!(state.complete_query(4), None);
}
