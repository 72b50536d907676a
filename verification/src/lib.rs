//! AI@home: the verified core of an edge-compute broker and its AI nodes.
//!
//! The broker keeps a registry of nodes; nodes answer inference requests for
//! the capabilities they advertise. This crate holds the data model, the
//! registry, the inference rules and the node's dealings with the broker,
//! each with its contract. Network and process plumbing lives elsewhere.

pub mod json;
pub mod laws;
pub mod model;
pub mod node;
pub mod outside;
pub mod registry;
pub mod text;

pub use json::Json;
pub use model::{
    Capability, HealthResponse, InferRequest, InferResponse, NodeInfo, RegisterRequest,
    RegisterResponse, Timestamp,
};
pub use node::{
    default_capabilities, is_success_status, InferError, NodeConfig, NodeState,
    RegistrationReply, RegistrationReport,
};
pub use registry::Registry;
pub use text::{parse_u16, u16_text};
