//! Configuration of the swarm and the deterministic parts of actor
//! startup: the listen address, the protocol identifiers, and the
//! recording of the initial topic subscriptions.

use vstd::prelude::*;
use vstd::string::{StrSliceExecFns, StringExecFns};
use crate::state::NetworkState;
use crate::types::TopicName;

verus! {

/// The distinguished topic that convenience publishing targets and
/// that a fresh node subscribes to.
pub const DEFAULT_TOPIC: &'static str = "peernet-global";

/// The DHT protocol identifier.
pub const KADEMLIA_PROTOCOL: &'static str = "/peernet/kad/1.0.0";

/// Configuration of the transport and the three sub-behaviors.
/// Intervals are in milliseconds; the identity keypair, when the
/// embedder provides one, stays with the loop that builds the swarm.
#[derive(Debug, Clone, PartialEq, Eq)]
pub struct SwarmConfig {
    pub mdns_query_interval_ms: u64,
    pub gossipsub_heartbeat_ms: u64,
    pub initial_topics: Vec<TopicName>,
    pub kademlia_replication: usize,
}

impl SwarmConfig {
    /// The replication factor handed to the DHT must be positive.
    pub fn replication_valid(&self) -> (r: bool)
        ensures
            r == (self.kademlia_replication > 0),
    {
        self.kademlia_replication > 0
    }
}

impl Default for SwarmConfig {
    /// Defaults: 5 s discovery queries, 1 s gossip heartbeat, the
    /// distinguished topic, replication factor 3.
    fn default() -> (r: SwarmConfig)
        ensures
            r.mdns_query_interval_ms == 5000,
            r.gossipsub_heartbeat_ms == 1000,
            r.initial_topics@.len() == 1,
            r.initial_topics@[0]@ == DEFAULT_TOPIC@,
            r.kademlia_replication == 3,
    {
        let mut topics: Vec<TopicName> = Vec::new();
        topics.push(TopicName::new_unchecked(String::from_str(DEFAULT_TOPIC)));
        SwarmConfig {
            mdns_query_interval_ms: 5000,
            gossipsub_heartbeat_ms: 1000,
            initial_topics: topics,
            kademlia_replication: 3,
        }
    }
}

/// Configuration of a whole node: the TCP port (0 for ephemeral) and
/// the swarm configuration.
#[derive(Debug, Clone, PartialEq, Eq)]
pub struct NetworkConfig {
    pub port: u16,
    pub swarm: SwarmConfig,
}

impl Default for NetworkConfig {
    fn default() -> (r: NetworkConfig)
        ensures
            r.port == 0,
            r.swarm.mdns_query_interval_ms == 5000,
            r.swarm.gossipsub_heartbeat_ms == 1000,
            r.swarm.initial_topics@.len() == 1,
            r.swarm.initial_topics@[0]@ == DEFAULT_TOPIC@,
            r.swarm.kademlia_replication == 3,
    {
        NetworkConfig { port: 0, swarm: SwarmConfig::default() }
    }
}

/// The character for one decimal digit.
pub open spec fn digit_char(d: nat) -> char {
    if d == 0 {
        '0'
    } else if d == 1 {
        '1'
    } else if d == 2 {
        '2'
    } else if d == 3 {
        '3'
    } else if d == 4 {
        '4'
    } else if d == 5 {
        '5'
    } else if d == 6 {
        '6'
    } else if d == 7 {
        '7'
    } else if d == 8 {
        '8'
    } else {
        '9'
    }
}

/// The decimal digits of a number, most significant first, with no
/// leading zero except for zero itself.
pub open spec fn decimal_digits(n: nat) -> Seq<char>
    decreases n,
{
    if n < 10 {
        seq![digit_char(n)]
    } else {
        decimal_digits(n / 10).push(digit_char(n % 10))
    }
}

/// Appends one decimal digit to the string.
fn push_digit(s: &mut String, d: u64)
    requires
        d < 10,
    ensures
        final(s)@ == old(s)@.push(digit_char(d as nat)),
{
    let t: &str = if d == 0 {
        "0"
    } else if d == 1 {
        "1"
    } else if d == 2 {
        "2"
    } else if d == 3 {
        "3"
    } else if d == 4 {
        "4"
    } else if d == 5 {
        "5"
    } else if d == 6 {
        "6"
    } else if d == 7 {
        "7"
    } else if d == 8 {
        "8"
    } else {
        "9"
    };
    proof {
        reveal_strlit("0");
        reveal_strlit("1");
        reveal_strlit("2");
        reveal_strlit("3");
        reveal_strlit("4");
        reveal_strlit("5");
        reveal_strlit("6");
        reveal_strlit("7");
        reveal_strlit("8");
        reveal_strlit("9");
        assert(t@ =~= seq![digit_char(d as nat)]);
    }
    s.append(t);
    assert(s@ =~= old(s)@.push(digit_char(d as nat)));
}

/// Writes a number in decimal.
pub fn format_decimal(n: u64) -> (r: String)
    ensures
        r@ == decimal_digits(n as nat),
    decreases n,
{
    if n < 10 {
        let mut s = String::new();
        push_digit(&mut s, n);
        assert(s@ =~= decimal_digits(n as nat));
        s
    } else {
        let mut s = format_decimal(n / 10);
        push_digit(&mut s, n % 10);
        s
    }
}

/// The multiaddr the node listens on: the given TCP port on all IPv4
/// interfaces.
pub fn listen_address(port: u16) -> (r: String)
    ensures
        r@ == "/ip4/0.0.0.0/tcp/"@ + decimal_digits(port as nat),
{
    let digits = format_decimal(port as u64);
    String::from_str("/ip4/0.0.0.0/tcp/").concat(digits.as_str())
}

/// Records every initial topic in the subscribed set, as startup does
/// right after the gossip sub-behavior accepted each subscription.
pub fn record_initial_subscriptions(state: &mut NetworkState, topics: &Vec<TopicName>)
    requires
        old(state).wf(),
    ensures
        final(state).wf(),
        forall|j: int|
            0 <= j < topics@.len() ==> final(state).topics().contains(#[trigger] topics@[j]@),
        forall|t: Seq<char>| #[trigger]
            final(state).topics().contains(t) <==> old(state).topics().contains(t) || exists|j: int|
                0 <= j < topics@.len() && topics@[j]@ == t,
        final(state).local_peer_id == old(state).local_peer_id,
        final(state).connected_peers == old(state).connected_peers,
        final(state).pending_queries == old(state).pending_queries,
{
    let n: usize = topics.len();
    let mut i: usize = 0;
    while i < n
        invariant
            0 <= i <= n,
            n == topics@.len(),
            state.wf(),
            forall|j: int| 0 <= j < i ==> state.topics().contains(#[trigger] topics@[j]@),
            forall|t: Seq<char>| #[trigger]
                state.topics().contains(t) <==> old(state).topics().contains(t) || exists|j: int|
                    0 <= j < i && topics@[j]@ == t,
            state.local_peer_id == old(state).local_peer_id,
            state.connected_peers == old(state).connected_peers,
            state.pending_queries == old(state).pending_queries,
        decreases n - i,
    {
        state.add_subscription(&topics[i]);
        i += 1;
    }
}

} // verus!
