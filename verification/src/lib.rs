//! A peer-to-peer networking node: local peer discovery, topic-based
//! gossip broadcast, and a distributed hash table, multiplexed by a
//! single-threaded network actor.
//!
//! This crate holds the verified core: the validated value domain, the
//! command/event vocabulary, the actor's bookkeeping state, and the
//! decision logic that turns commands and protocol events into state
//! updates, swarm actions, and emitted events. The asynchronous event
//! loop and the transport plumbing live outside the library and drive
//! these functions.

pub mod actor;
pub mod cli;
pub mod commands;
pub mod error;
pub mod handlers;
pub mod state;
pub mod swarm;
pub mod types;

pub use actor::{plan_command, handle_swarm_event, CommandAction, CommandPlan, RawSwarmEvent};
pub use cli::{parse_input, input_to_command, Args, InputAction};
pub use commands::{InputCommand, NetworkCommand, NetworkEvent, SwarmAction};
pub use handlers::{GossipsubHandler, KademliaHandler, MdnsHandler};
pub use error::{CommandError, PeernetError, PeernetResult};
pub use state::{NetworkState, PendingQuery};
pub use swarm::{NetworkConfig, SwarmConfig, DEFAULT_TOPIC, KADEMLIA_PROTOCOL};
pub use types::{DhtKey, DhtValue, GossipPayload, PeerId, TopicName};
