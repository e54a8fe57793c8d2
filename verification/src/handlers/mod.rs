//! Translators from raw sub-behavior events — gossip, DHT, discovery —
//! into the actor's neutral event vocabulary.

pub mod gossipsub;
pub mod kademlia;
pub mod mdns;

pub use gossipsub::GossipsubHandler;
pub use kademlia::KademliaHandler;
pub use mdns::MdnsHandler;
