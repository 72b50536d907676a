//! An AI node: the capabilities it serves, how it answers inference
//! requests, and what it does with the broker's answers.

use vstd::prelude::*;

use crate::json::{as_str_spec, get_spec, Json};
use crate::model::{Capability, InferRequest, InferResponse, RegisterRequest, copy_capabilities};
use crate::outside::{hyphenated, uuid_text};
use crate::text::{decimal, parse_u16, parse_u16_spec, u16_text};

verus! {

/// Whether one of `caps` is named `name`.
pub open spec fn supports_spec(caps: Seq<Capability>, name: Seq<char>) -> bool {
    exists|i: int| 0 <= i < caps.len() && #[trigger] caps[i].name@ == name
}

/// The prompt that a text-generation request carries: the string member
/// `prompt` of its input, or the empty text when there is none.
pub open spec fn prompt_of(input: Json) -> Seq<char> {
    match get_spec(input, "prompt"@) {
        Some(v) => match as_str_spec(v) {
            Some(s) => s,
            None => ""@,
        },
        None => ""@,
    }
}

/// The text generated for `prompt`.
pub open spec fn generated_text(prompt: Seq<char>) -> Seq<char> {
    "[generated] "@ + prompt
}

/// Whether `out` is the object `{"text": text}`.
pub open spec fn is_text_object(out: Json, text: Seq<char>) -> bool {
    match out {
        Json::Object(members) => members@.len() == 1 && members@[0].0@ == "text"@
            && (members@[0].1 matches Json::Str(t) && t@ == text),
        _ => false,
    }
}

/// The message that refuses a request for capability `name`.
pub open spec fn unsupported_message(name: Seq<char>) -> Seq<char> {
    "Capability '"@ + name + "' not supported by this node"@
}

/// A refused inference request.
#[derive(Debug, Clone, PartialEq, Eq)]
pub struct InferError {
    /// Says which capability the node does not support.
    pub message: String,
}

impl InferError {
    /// The JSON body that carries the refusal: `{"error": message}`.
    pub fn body(&self) -> (r: Json)
        ensures
            r matches Json::Object(members) && members@.len() == 1 && members@[0].0@ == "error"@
                && (members@[0].1 matches Json::Str(m) && m@ == self.message@),
    {
        let mut members: Vec<(String, Json)> = Vec::new();
        members.push((String::from_str("error"), Json::Str(self.message.clone())));
        Json::Object(members)
    }
}

/// The state of an AI node.
#[derive(Debug, Clone, PartialEq, Eq)]
pub struct NodeState {
    /// Human-readable name for this node.
    pub name: String,
    /// Capabilities advertised to the broker.
    pub capabilities: Vec<Capability>,
    /// Base URL of the broker service.
    pub broker_url: String,
    /// Node id assigned by the broker (None until registered).
    pub node_id: Option<u128>,
}

/// `a` followed by `b`.
fn concat(a: &str, b: &str) -> (r: String)
    ensures
        r@ == a@ + b@,
{
    let mut r = String::from_str(a);
    r.append(b);
    r
}

impl NodeState {
    /// Whether this node advertises a capability named `name`.
    pub fn supports(&self, name: &String) -> (r: bool)
        ensures
            r == supports_spec(self.capabilities@, name@),
    {
        let n = self.capabilities.len();
        for i in 0..n
            invariant
                n == self.capabilities@.len(),
                forall|j: int| 0 <= j < i ==> self.capabilities@[j].name@ != name@,
        {
            if self.capabilities[i].name == *name {
                return true;
            }
        }
        false
    }

    /// Runs inference for `req`.
    ///
    /// A request for a capability the node does not advertise is refused.
    /// `text-generation` answers `{"text": "[generated] <prompt>"}`, where the
    /// prompt is the string member `prompt` of the input (empty when there
    /// is none); every other advertised capability, `echo` among them,
    /// answers with the input itself. The answer names the capability.
    pub fn infer(&self, req: InferRequest) -> (r: Result<InferResponse, InferError>)
        ensures
            r is Ok <==> supports_spec(self.capabilities@, req.capability@),
            r matches Ok(resp) ==> resp.capability@ == req.capability@,
            r matches Ok(resp) ==> if req.capability@ == "text-generation"@ {
                is_text_object(resp.output, generated_text(prompt_of(req.input)))
            } else {
                resp.output == req.input
            },
            r matches Err(e) ==> e.message@ == unsupported_message(req.capability@),
    {
        if !self.supports(&req.capability) {
            let mut message = concat("Capability '", req.capability.as_str());
            message.append("' not supported by this node");
            return Err(InferError { message });
        }
        let text_generation = String::from_str("text-generation");
        let output = if req.capability == text_generation {
            let prompt: &str = match req.input.get("prompt") {
                Some(v) => match v.as_str() {
                    Some(s) => s,
                    None => "",
                },
                None => "",
            };
            let text = concat("[generated] ", prompt);
            let mut members: Vec<(String, Json)> = Vec::new();
            members.push((String::from_str("text"), Json::Str(text)));
            Json::Object(members)
        } else {
            req.input
        };
        Ok(InferResponse { capability: req.capability, output })
    }

    /// The registration this node sends to the broker: its name, the URL at
    /// which it can be reached, and its capabilities.
    pub fn registration_request(&self, public_url: &String) -> (r: RegisterRequest)
        ensures
            r.name@ == self.name@,
            r.url@ == public_url@,
            r.capabilities@ == self.capabilities@,
    {
        RegisterRequest {
            name: self.name.clone(),
            url: public_url.clone(),
            capabilities: copy_capabilities(&self.capabilities),
        }
    }

    /// Where registrations are sent: `<broker_url>/api/v1/nodes`.
    pub fn registration_url(&self) -> (r: String)
        ensures
            r@ == self.broker_url@ + "/api/v1/nodes"@,
    {
        concat(self.broker_url.as_str(), "/api/v1/nodes")
    }

    /// Takes in what the broker answered to the registration. Only a
    /// successful status with a body that names the node's id registers
    /// the node; any other outcome leaves the node as it was.
    pub fn record_registration(&mut self, reply: RegistrationReply) -> (r: RegistrationReport)
        ensures
            final(self).name == old(self).name,
            final(self).capabilities == old(self).capabilities,
            final(self).broker_url == old(self).broker_url,
            final(self).node_id == match r {
                RegistrationReport::Registered(id) => Some(id),
                _ => old(self).node_id,
            },
            r == registration_report_spec(reply),
    {
        let report = match reply {
            RegistrationReply::Unreachable => RegistrationReport::Unreachable,
            RegistrationReply::Answered { status, id } => {
                if !is_success_status(status) {
                    RegistrationReport::Refused(status)
                } else {
                    match id {
                        Some(id) => RegistrationReport::Registered(id),
                        None => RegistrationReport::UnreadableAnswer,
                    }
                }
            },
        };
        if let RegistrationReport::Registered(id) = report {
            self.node_id = Some(id);
        }
        report
    }

    /// Where this node deregisters: `<broker_url>/api/v1/nodes/<id>` with the
    /// id in its hyphenated text; nothing when the node is not registered.
    pub fn deregistration_url(&self) -> (r: Option<String>)
        ensures
            r is Some <==> self.node_id is Some,
            r matches Some(u) ==> u@ == self.broker_url@ + "/api/v1/nodes/"@ + hyphenated(self.node_id->0),
    {
        match self.node_id {
            Some(id) => {
                let mut u = concat(self.broker_url.as_str(), "/api/v1/nodes/");
                let t = uuid_text(id);
                u.append(t.as_str());
                Some(u)
            },
            None => None,
        }
    }
}

/// Whether an HTTP status code reports success (`200..=299`).
pub fn is_success_status(status: u16) -> (r: bool)
    ensures
        r == (200 <= status <= 299),
{
    200 <= status && status <= 299
}

/// What came back from sending the registration.
#[derive(Debug, Clone, Copy, PartialEq, Eq)]
pub enum RegistrationReply {
    /// The broker could not be reached.
    Unreachable,
    /// The broker answered with `status`; `id` is the node id read from the
    /// answer's body, when that body could be read as a registration answer.
    Answered { status: u16, id: Option<u128> },
}

/// How a registration ended.
#[derive(Debug, Clone, Copy, PartialEq, Eq)]
pub enum RegistrationReport {
    /// The broker registered the node under this id.
    Registered(u128),
    /// The broker accepted, but its answer could not be read.
    UnreadableAnswer,
    /// The broker answered with this error status.
    Refused(u16),
    /// The broker could not be reached.
    Unreachable,
}

/// How a registration ends, given what came back.
pub open spec fn registration_report_spec(reply: RegistrationReply) -> RegistrationReport {
    match reply {
        RegistrationReply::Unreachable => RegistrationReport::Unreachable,
        RegistrationReply::Answered { status, id } => if !(200 <= status <= 299) {
            RegistrationReport::Refused(status)
        } else {
            match id {
                Some(id) => RegistrationReport::Registered(id),
                None => RegistrationReport::UnreadableAnswer,
            }
        },
    }
}

/// The capabilities a node serves unless told otherwise.
pub fn default_capabilities() -> (r: Vec<Capability>)
    ensures
        r@.len() == 2,
        r@[0].name@ == "text-generation"@,
        r@[0].description matches Some(d) && d@ == "Simple echo-based text generation"@,
        r@[1].name@ == "echo"@,
        r@[1].description matches Some(d) && d@ == "Echoes the input back as output"@,
{
    let mut r: Vec<Capability> = Vec::new();
    r.push(Capability {
        name: String::from_str("text-generation"),
        description: Some(String::from_str("Simple echo-based text generation")),
    });
    r.push(Capability {
        name: String::from_str("echo"),
        description: Some(String::from_str("Echoes the input back as output")),
    });
    r
}

/// A node's settings.
#[derive(Debug, Clone, PartialEq, Eq)]
pub struct NodeConfig {
    /// Human-readable name.
    pub name: String,
    /// Port the node's API binds to.
    pub port: u16,
    /// URL advertised to the broker.
    pub public_url: String,
    /// Base URL of the broker.
    pub broker_url: String,
}

/// The port that a setting gives: the setting read as a port number, or
/// 4000 when it is missing or is not one.
pub open spec fn port_setting(port: Option<String>) -> u16 {
    match port {
        Some(p) => match parse_u16_spec(p@) {
            Some(n) => n,
            None => 4000,
        },
        None => 4000,
    }
}

impl NodeConfig {
    /// The settings given by the optional values of `NODE_NAME`,
    /// `NODE_PORT`, `NODE_PUBLIC_URL` and `BROKER_URL`, each missing one
    /// replaced by its default: `ai-node`, 4000 (also for a port that does
    /// not read as one), `http://localhost:<port>` and
    /// `http://localhost:3000`.
    pub fn from_settings(
        name: Option<String>,
        port: Option<String>,
        public_url: Option<String>,
        broker_url: Option<String>,
    ) -> (r: NodeConfig)
        ensures
            r.name@ == (match name {
                Some(n) => n@,
                None => "ai-node"@,
            }),
            r.port == port_setting(port),
            port is Some && parse_u16_spec(port->0@) is Some ==> r.port == parse_u16_spec(
                port->0@,
            )->0,
            (port is None || parse_u16_spec(port->0@) is None) ==> r.port == 4000,
            r.public_url@ == (match public_url {
                Some(u) => u@,
                None => "http://localhost:"@ + decimal(r.port as nat),
            }),
            r.broker_url@ == (match broker_url {
                Some(u) => u@,
                None => "http://localhost:3000"@,
            }),
    {
        let name = match name {
            Some(n) => n,
            None => String::from_str("ai-node"),
        };
        let port_number: u16 = match &port {
            Some(p) => match parse_u16(p.as_str()) {
                Some(n) => n,
                None => 4000,
            },
            None => 4000,
        };
        let public_url = match public_url {
            Some(u) => u,
            None => {
                let mut u = String::from_str("http://localhost:");
                let digits = u16_text(port_number);
                u.append(digits.as_str());
                u
            },
        };
        let broker_url = match broker_url {
            Some(u) => u,
            None => String::from_str("http://localhost:3000"),
        };
        NodeConfig { name, port: port_number, public_url, broker_url }
    }
}

} // verus!
