//! The validated value domain: topic names, DHT keys, DHT values,
//! gossip payloads, and the peer identifier the actor tracks.
//!
//! Each validated type is built by a fallible factory that enforces the
//! type's invariant and reports a validation error naming the field and
//! the reason on violation.

use vstd::prelude::*;
use vstd::string::StrSliceExecFns;
use vstd::utf8::encode_utf8;
use crate::error::PeernetError;

verus! {

/// Largest accepted topic name, in bytes.
pub const TOPIC_NAME_MAX_LEN: usize = 128;

/// Largest accepted DHT key, in bytes.
pub const DHT_KEY_MAX_LEN: usize = 256;

/// Largest accepted DHT value, in bytes.
pub const DHT_VALUE_MAX_LEN: usize = 65536;

/// Largest accepted gossip payload, in bytes.
pub const GOSSIP_PAYLOAD_MAX_LEN: usize = 1048576;

/// A gossip topic name: non-empty, at most 128 bytes.
#[derive(Debug, Clone, PartialEq, Eq, Hash)]
pub struct TopicName(String);

/// A DHT key: non-empty, at most 256 bytes, no NUL byte.
#[derive(Debug, Clone, PartialEq, Eq, Hash)]
pub struct DhtKey(String);

/// A DHT value: at most 64 KiB of bytes.
#[derive(Debug, Clone, PartialEq, Eq)]
pub struct DhtValue(Vec<u8>);

/// A gossip payload: at most 1 MiB of bytes.
#[derive(Debug, Clone, PartialEq, Eq)]
pub struct GossipPayload(Vec<u8>);

/// A peer identifier, carried as the opaque byte form the transport
/// derives from a peer's public key. The actor only compares peer ids
/// and stores them in its connected set.
#[derive(Debug, PartialEq, Eq, Hash)]
pub struct PeerId {
    bytes: Vec<u8>,
}

impl Clone for PeerId {
    /// The clone denotes the same peer.
    fn clone(&self) -> (r: PeerId)
        ensures
            r@ == self@,
    {
        let r = PeerId { bytes: self.bytes.clone() };
        proof {
            assert(r.bytes@ =~= self.bytes@);
        }
        r
    }
}

impl View for TopicName {
    type V = Seq<char>;

    closed spec fn view(&self) -> Seq<char> {
        self.0@
    }
}

impl View for DhtKey {
    type V = Seq<char>;

    closed spec fn view(&self) -> Seq<char> {
        self.0@
    }
}

impl View for DhtValue {
    type V = Seq<u8>;

    closed spec fn view(&self) -> Seq<u8> {
        self.0@
    }
}

impl View for GossipPayload {
    type V = Seq<u8>;

    closed spec fn view(&self) -> Seq<u8> {
        self.0@
    }
}

impl View for PeerId {
    type V = Seq<u8>;

    closed spec fn view(&self) -> Seq<u8> {
        self.bytes@
    }
}

/// A topic name is accepted iff it is non-empty and at most 128 bytes.
pub open spec fn topic_name_valid(s: Seq<char>) -> bool {
    s.len() > 0 && encode_utf8(s).len() <= TOPIC_NAME_MAX_LEN
}

/// A DHT key is accepted iff it is non-empty, at most 256 bytes, and
/// holds no NUL character (hence no NUL byte in its encoding).
pub open spec fn dht_key_valid(s: Seq<char>) -> bool {
    s.len() > 0 && encode_utf8(s).len() <= DHT_KEY_MAX_LEN && !s.contains('\0')
}

/// A DHT value is accepted iff it is at most 64 KiB.
pub open spec fn dht_value_valid(b: Seq<u8>) -> bool {
    b.len() <= DHT_VALUE_MAX_LEN
}

/// A gossip payload is accepted iff it is at most 1 MiB.
pub open spec fn gossip_payload_valid(b: Seq<u8>) -> bool {
    b.len() <= GOSSIP_PAYLOAD_MAX_LEN
}

/// Whether the string holds a NUL character.
fn str_contains_nul(s: &str) -> (r: bool)
    ensures
        r == s@.contains('\0'),
{
    let n: usize = s.unicode_len();
    let mut i: usize = 0;
    while i < n
        invariant
            0 <= i <= n,
            n == s@.len(),
            forall|j: int| 0 <= j < i ==> s@[j] != '\0',
        decreases n - i,
    {
        if s.get_char(i) == '\0' {
            assert(s@.contains('\0'));
            return true;
        }
        i += 1;
    }
    assert(!s@.contains('\0'));
    false
}

impl TopicName {
    /// Validates and wraps a topic name.
    pub fn new(s: String) -> (r: Result<TopicName, PeernetError>)
        ensures
            r is Ok <==> topic_name_valid(s@),
            r matches Ok(t) ==> t@ == s@,
            r matches Err(e) ==> e matches PeernetError::ValidationFailed { field, reason }
                && field@ == "topic"@ && (if s@.len() == 0 {
                reason@ == "cannot be empty"@
            } else {
                reason@ == "exceeds 128 characters"@
            }),
    {
        if s.as_str().is_empty() {
            return Err(PeernetError::ValidationFailed { field: "topic", reason: "cannot be empty" });
        }
        if s.as_str().as_bytes().len() > TOPIC_NAME_MAX_LEN {
            return Err(
                PeernetError::ValidationFailed { field: "topic", reason: "exceeds 128 characters" },
            );
        }
        Ok(TopicName(s))
    }

    /// Wraps a string without validation, for a previously validated
    /// name round-tripped through the transport (e.g. a topic echoed
    /// back by a gossip event).
    pub fn new_unchecked(s: String) -> (r: TopicName)
        ensures
            r@ == s@,
    {
        TopicName(s)
    }

    /// Read-only view of the underlying string.
    pub fn as_str(&self) -> (r: &str)
        ensures
            r@ == self@,
    {
        self.0.as_str()
    }
}

impl DhtKey {
    /// Validates and wraps a DHT key.
    pub fn new(s: String) -> (r: Result<DhtKey, PeernetError>)
        ensures
            r is Ok <==> dht_key_valid(s@),
            r matches Ok(k) ==> k@ == s@,
            r matches Err(e) ==> e matches PeernetError::ValidationFailed { field, reason }
                && field@ == "dht_key"@ && (if s@.len() == 0 {
                reason@ == "cannot be empty"@
            } else if encode_utf8(s@).len() > DHT_KEY_MAX_LEN {
                reason@ == "exceeds 256 characters"@
            } else {
                reason@ == "contains null byte"@
            }),
    {
        if s.as_str().is_empty() {
            return Err(
                PeernetError::ValidationFailed { field: "dht_key", reason: "cannot be empty" },
            );
        }
        if s.as_str().as_bytes().len() > DHT_KEY_MAX_LEN {
            return Err(
                PeernetError::ValidationFailed {
                    field: "dht_key",
                    reason: "exceeds 256 characters",
                },
            );
        }
        if str_contains_nul(s.as_str()) {
            return Err(
                PeernetError::ValidationFailed { field: "dht_key", reason: "contains null byte" },
            );
        }
        Ok(DhtKey(s))
    }

    /// Read-only view of the underlying string.
    pub fn as_str(&self) -> (r: &str)
        ensures
            r@ == self@,
    {
        self.0.as_str()
    }
}

impl DhtValue {
    /// Validates and wraps a DHT value.
    pub fn new(data: Vec<u8>) -> (r: Result<DhtValue, PeernetError>)
        ensures
            r is Ok <==> dht_value_valid(data@),
            r matches Ok(v) ==> v@ == data@,
            r matches Err(e) ==> e matches PeernetError::ValidationFailed { field, reason }
                && field@ == "dht_value"@ && reason@ == "exceeds 64KB limit"@,
    {
        if data.len() > DHT_VALUE_MAX_LEN {
            return Err(
                PeernetError::ValidationFailed { field: "dht_value", reason: "exceeds 64KB limit" },
            );
        }
        Ok(DhtValue(data))
    }

    /// Read-only view of the underlying bytes.
    pub fn as_bytes(&self) -> (r: &[u8])
        ensures
            r@ == self@,
    {
        self.0.as_slice()
    }

    /// The underlying bytes.
    pub fn into_bytes(self) -> (r: Vec<u8>)
        ensures
            r@ == self@,
    {
        self.0
    }

    /// The length of the value, in bytes.
    pub fn len(&self) -> (r: usize)
        ensures
            r == self@.len(),
    {
        self.0.len()
    }

    /// Whether the value is empty.
    pub fn is_empty(&self) -> (r: bool)
        ensures
            r == (self@.len() == 0),
    {
        self.0.len() == 0
    }

    /// The empty value.
    pub fn empty() -> (r: DhtValue)
        ensures
            r@ == Seq::<u8>::empty(),
    {
        DhtValue(Vec::new())
    }
}

impl GossipPayload {
    /// Validates and wraps a gossip payload.
    pub fn new(data: Vec<u8>) -> (r: Result<GossipPayload, PeernetError>)
        ensures
            r is Ok <==> gossip_payload_valid(data@),
            r matches Ok(p) ==> p@ == data@,
            r matches Err(e) ==> e matches PeernetError::ValidationFailed { field, reason }
                && field@ == "gossip_payload"@ && reason@ == "exceeds 1MB limit"@,
    {
        if data.len() > GOSSIP_PAYLOAD_MAX_LEN {
            return Err(
                PeernetError::ValidationFailed {
                    field: "gossip_payload",
                    reason: "exceeds 1MB limit",
                },
            );
        }
        Ok(GossipPayload(data))
    }

    /// Validates and wraps the UTF-8 bytes of a text payload.
    pub fn from_text(s: &str) -> (r: Result<GossipPayload, PeernetError>)
        ensures
            r is Ok <==> gossip_payload_valid(encode_utf8(s@)),
            r matches Ok(p) ==> p@ == encode_utf8(s@),
            r matches Err(e) ==> e matches PeernetError::ValidationFailed { field, reason }
                && field@ == "gossip_payload"@ && reason@ == "exceeds 1MB limit"@,
    {
        GossipPayload::new(s.as_bytes_vec())
    }

    /// Read-only view of the underlying bytes.
    pub fn as_bytes(&self) -> (r: &[u8])
        ensures
            r@ == self@,
    {
        self.0.as_slice()
    }

    /// The underlying bytes.
    pub fn into_bytes(self) -> (r: Vec<u8>)
        ensures
            r@ == self@,
    {
        self.0
    }

    /// The payload as text, when its bytes are valid UTF-8.
    pub fn as_str(&self) -> (r: Option<&str>)
        ensures
            r is Some <==> vstd::utf8::valid_utf8(self@),
            r matches Some(s) ==> s@ == vstd::utf8::decode_utf8(self@),
    {
        bytes_as_utf8(self.0.as_slice())
    }

    /// The empty payload.
    pub fn empty() -> (r: GossipPayload)
        ensures
            r@ == Seq::<u8>::empty(),
    {
        GossipPayload(Vec::new())
    }
}

/// Relies on std::str::from_utf8: it succeeds exactly on valid UTF-8
/// input and returns the decoded string.
#[verifier::external_body]
fn bytes_as_utf8(v: &[u8]) -> (r: Option<&str>)
    ensures
        r is Some <==> vstd::utf8::valid_utf8(v@),
        r matches Some(s) ==> s@ == vstd::utf8::decode_utf8(v@),
{
    std::str::from_utf8(v).ok()
}

impl PeerId {
    /// Wraps the opaque byte form of a peer identifier.
    pub fn new(bytes: Vec<u8>) -> (r: PeerId)
        ensures
            r@ == bytes@,
    {
        PeerId { bytes }
    }

    /// Read-only view of the underlying bytes.
    pub fn as_bytes(&self) -> (r: &[u8])
        ensures
            r@ == self@,
    {
        self.bytes.as_slice()
    }

    /// Whether two peer identifiers denote the same peer.
    pub fn same_peer(&self, other: &PeerId) -> (r: bool)
        ensures
            r == (self@ == other@),
    {
        if self.bytes.len() != other.bytes.len() {
            assert(self@ != other@);
            return false;
        }
        let n: usize = self.bytes.len();
        let mut i: usize = 0;
        while i < n
            invariant
                0 <= i <= n,
                n == self@.len(),
                n == other@.len(),
                forall|j: int| 0 <= j < i ==> self@[j] == other@[j],
            decreases n - i,
        {
            if self.bytes[i] != other.bytes[i] {
                assert(self@ != other@);
                return false;
            }
            i += 1;
        }
        assert(self@ =~= other@);
        true
    }
}

} // verus!
