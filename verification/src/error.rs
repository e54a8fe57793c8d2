//! Error vocabulary: synchronous errors returned to the embedder, and
//! command errors surfaced asynchronously on the event stream.

use vstd::prelude::*;
use vstd::string::StringExecFns;

verus! {

/// Errors returned synchronously: validation of the value domain,
/// channel failures, and transport setup failures.
#[derive(Debug, Clone, PartialEq, Eq)]
pub enum PeernetError {
    ValidationFailed { field: &'static str, reason: &'static str },
    SendFailed { actor: &'static str },
    ChannelClosed { actor: &'static str, reason: &'static str },
    Transport { reason: String },
}

pub type PeernetResult<T> = Result<T, PeernetError>;

/// Failures of a command that reached the actor and was rejected by the
/// swarm or by a pre-check; surfaced as events, never as synchronous
/// returns.
#[derive(Debug, Clone, PartialEq, Eq)]
pub enum CommandError {
    PublishFailed { topic: String, reason: String },
    SubscribeFailed { topic: String, reason: String },
    UnsubscribeFailed { topic: String, reason: String },
    DialFailed { addr: String, reason: String },
    DhtFailed { key: String, reason: String },
}

impl PeernetError {
    /// The human-readable description of this error.
    pub open spec fn message_spec(&self) -> Seq<char> {
        match self {
            PeernetError::ValidationFailed { field, reason } => {
                "validation failed: "@ + field@ + " "@ + reason@
            },
            PeernetError::SendFailed { actor } => {
                "send failed to "@ + actor@ + " actor: channel closed"@
            },
            PeernetError::ChannelClosed { actor, reason } => {
                "channel closed: "@ + actor@ + " actor, "@ + reason@
            },
            PeernetError::Transport { reason } => { "transport error: "@ + reason@ },
        }
    }

    pub fn message(&self) -> (r: String)
        ensures
            r@ == self.message_spec(),
    {
        match self {
            PeernetError::ValidationFailed { field, reason } => {
                String::from_str("validation failed: ").concat(field).concat(" ").concat(reason)
            },
            PeernetError::SendFailed { actor } => {
                String::from_str("send failed to ").concat(actor).concat(" actor: channel closed")
            },
            PeernetError::ChannelClosed { actor, reason } => {
                String::from_str("channel closed: ").concat(actor).concat(" actor, ").concat(
                    reason,
                )
            },
            PeernetError::Transport { reason } => {
                String::from_str("transport error: ").concat(reason.as_str())
            },
        }
    }
}

impl CommandError {
    /// The human-readable description of this error; it becomes the
    /// `reason` of a `CommandFailed` event.
    pub open spec fn message_spec(&self) -> Seq<char> {
        match self {
            CommandError::PublishFailed { topic, reason } => {
                "publish failed on topic "@ + topic@ + ": "@ + reason@
            },
            CommandError::SubscribeFailed { topic, reason } => {
                "subscribe failed on topic "@ + topic@ + ": "@ + reason@
            },
            CommandError::UnsubscribeFailed { topic, reason } => {
                "unsubscribe failed on topic "@ + topic@ + ": "@ + reason@
            },
            CommandError::DialFailed { addr, reason } => {
                "dial failed to "@ + addr@ + ": "@ + reason@
            },
            CommandError::DhtFailed { key, reason } => {
                "dht operation failed for key "@ + key@ + ": "@ + reason@
            },
        }
    }

    pub fn message(&self) -> (r: String)
        ensures
            r@ == self.message_spec(),
    {
        match self {
            CommandError::PublishFailed { topic, reason } => {
                String::from_str("publish failed on topic ").concat(topic.as_str()).concat(
                    ": ",
                ).concat(reason.as_str())
            },
            CommandError::SubscribeFailed { topic, reason } => {
                String::from_str("subscribe failed on topic ").concat(topic.as_str()).concat(
                    ": ",
                ).concat(reason.as_str())
            },
            CommandError::UnsubscribeFailed { topic, reason } => {
                String::from_str("unsubscribe failed on topic ").concat(topic.as_str()).concat(
                    ": ",
                ).concat(reason.as_str())
            },
            CommandError::DialFailed { addr, reason } => {
                String::from_str("dial failed to ").concat(addr.as_str()).concat(": ").concat(
                    reason.as_str(),
                )
            },
            CommandError::DhtFailed { key, reason } => {
                String::from_str("dht operation failed for key ").concat(key.as_str()).concat(
                    ": ",
                ).concat(reason.as_str())
            },
        }
    }
}

} // verus!
