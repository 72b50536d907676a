//! The data model shared by the broker and the nodes.

use vstd::prelude::*;

use crate::json::Json;

verus! {

/// Describes an AI capability offered by a node.
#[derive(Debug, Clone, PartialEq, Eq)]
pub struct Capability {
    /// Short identifier, e.g. "text-generation", "image-classification".
    pub name: String,
    /// Optional human-readable description.
    pub description: Option<String>,
}

impl Capability {
    /// A copy of this capability, field for field.
    pub fn copied(&self) -> (r: Self)
        ensures
            r == *self,
    {
        let description = match &self.description {
            Some(d) => Some(d.clone()),
            None => None,
        };
        Capability { name: self.name.clone(), description }
    }
}

/// Copies a list of capabilities, item for item.
pub fn copy_capabilities(caps: &Vec<Capability>) -> (r: Vec<Capability>)
    ensures
        r@ == caps@,
{
    let mut r: Vec<Capability> = Vec::new();
    let n = caps.len();
    for i in 0..n
        invariant
            n == caps@.len(),
            r@ == caps@.take(i as int),
    {
        r.push(caps[i].copied());
        assert(r@ =~= caps@.take(i + 1));
    }
    assert(caps@.take(n as int) =~= caps@);
    r
}

/// A point in time in UTC: whole seconds since the Unix epoch and the
/// nanoseconds past that second.
#[derive(Debug, Clone, Copy, PartialEq, Eq)]
pub struct Timestamp {
    pub secs: i64,
    pub nanos: u32,
}

/// Information about a registered AI node.
#[derive(Debug, Clone, PartialEq, Eq)]
pub struct NodeInfo {
    /// Unique node identifier assigned by the broker on registration
    /// (the 128 bits of a UUID, most significant first).
    pub id: u128,
    /// Human-readable name for this node.
    pub name: String,
    /// Base URL at which the node's HTTP API is reachable.
    pub url: String,
    /// Capabilities advertised by this node.
    pub capabilities: Vec<Capability>,
    /// When the node registered with the broker.
    pub registered_at: Timestamp,
}

/// What a node record says, as mathematical values.
pub struct NodeRecord {
    pub id: u128,
    pub name: Seq<char>,
    pub url: Seq<char>,
    pub capabilities: Seq<Capability>,
    pub registered_at: Timestamp,
}

impl View for NodeInfo {
    type V = NodeRecord;

    open spec fn view(&self) -> NodeRecord {
        NodeRecord {
            id: self.id,
            name: self.name@,
            url: self.url@,
            capabilities: self.capabilities@,
            registered_at: self.registered_at,
        }
    }
}

impl NodeInfo {
    /// A copy of this record with the same contents.
    pub fn copied(&self) -> (r: Self)
        ensures
            r@ == self@,
    {
        NodeInfo {
            id: self.id,
            name: self.name.clone(),
            url: self.url.clone(),
            capabilities: copy_capabilities(&self.capabilities),
            registered_at: self.registered_at,
        }
    }
}

/// Request body sent by a node when registering with the broker.
#[derive(Debug, Clone, PartialEq, Eq)]
pub struct RegisterRequest {
    /// Human-readable name for this node.
    pub name: String,
    /// Base URL at which the node's HTTP API is reachable.
    pub url: String,
    /// Capabilities advertised by this node.
    pub capabilities: Vec<Capability>,
}

/// Response body returned by the broker after a successful registration.
#[derive(Debug, Clone, PartialEq, Eq)]
pub struct RegisterResponse {
    /// The node identifier assigned by the broker.
    pub id: u128,
    /// Echo of the registered URL.
    pub url: String,
}

/// Request body sent to a node for inference.
#[derive(Debug, Clone, PartialEq)]
pub struct InferRequest {
    /// The capability to invoke (must match one the node advertised).
    pub capability: String,
    /// Arbitrary JSON payload consumed by the capability handler.
    pub input: Json,
}

/// Response body returned by a node after processing an inference request.
#[derive(Debug, Clone, PartialEq)]
pub struct InferResponse {
    /// The capability that handled the request.
    pub capability: String,
    /// Arbitrary JSON payload produced by the capability handler.
    pub output: Json,
}

/// Standard health-check response.
#[derive(Debug, Clone, PartialEq, Eq)]
pub struct HealthResponse {
    pub status: String,
}

impl HealthResponse {
    /// The answer of a healthy service: status `"ok"`.
    pub fn ok() -> (r: Self)
        ensures
            r.status@ == "ok"@,
    {
        HealthResponse { status: String::from_str("ok") }
    }
}

} // verus!
