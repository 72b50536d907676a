use aihome::{
    default_capabilities, is_success_status, parse_u16, u16_text, Capability, HealthResponse,
    InferRequest, Json, NodeConfig, NodeState, RegistrationReply, RegistrationReport,
};

fn make_state() -> NodeState {
    NodeState {
        name: "test-node".to_string(),
        capabilities: vec![
            Capability {
                name: "text-generation".to_string(),
                description: None,
            },
            Capability {
                name: "echo".to_string(),
                description: None,
            },
        ],
        broker_url: "http://localhost:3000".to_string(),
        node_id: None,
    }
}

fn s(text: &str) -> String {
    text.to_string()
}

fn object(members: Vec<(&str, Json)>) -> Json {
    Json::Object(members.into_iter().map(|(k, v)| (k.to_string(), v)).collect())
}

fn text_of(output: &Json) -> Option<&str> {
    output.get("text").and_then(|v| v.as_str())
}

#[test]
fn main_health_returns_ok() {
    let body = HealthResponse::ok();
    assert_eq!(body.status, "ok");
}

#[test]
fn text_generation_returns_generated_text() {
    let state = make_state();
    let resp = state
        .infer(InferRequest {
            capability: s("text-generation"),
            input: object(vec![("prompt", Json::Str(s("Hello, world!")))]),
        })
        .unwrap();
    assert_eq!(resp.capability, "text-generation");
    let text = text_of(&resp.output).unwrap();
    assert!(text.contains("Hello, world!"), "unexpected output: {text}");
}

fn payload() -> Json {
    object(vec![("foo", Json::Str(s("bar"))), ("num", Json::Number(s("42")))])
}

#[test]
fn echo_returns_input() {
    let state = make_state();
    let resp = state
        .infer(InferRequest { capability: s("echo"), input: payload() })
        .unwrap();
    assert_eq!(resp.output, payload());
}

#[test]
fn unsupported_capability_returns_422() {
    let state = make_state();
    let resp = state.infer(InferRequest {
        capability: s("unknown-capability"),
        input: object(vec![]),
    });
    assert!(resp.is_err());
}

#[test]
fn text_generation_empty_prompt() {
    let state = make_state();
    let resp = state
        .infer(InferRequest { capability: s("text-generation"), input: object(vec![]) })
        .unwrap();
    // Even with empty prompt the handler should succeed
    assert_eq!(resp.capability, "text-generation");
    assert_eq!(text_of(&resp.output), Some("[generated] "));
}

#[test]
fn text_generation_follows_the_documented_example() {
    let state = make_state();
    let resp = state
        .infer(InferRequest {
            capability: s("text-generation"),
            input: object(vec![("prompt", Json::Str(s("Hello!")))]),
        })
        .unwrap();
    assert_eq!(resp.output, object(vec![("text", Json::Str(s("[generated] Hello!")))]));
}

#[test]
fn text_generation_ignores_a_prompt_that_is_not_text() {
    let state = make_state();
    let resp = state
        .infer(InferRequest {
            capability: s("text-generation"),
            input: object(vec![("prompt", Json::Number(s("7")))]),
        })
        .unwrap();
    assert_eq!(text_of(&resp.output), Some("[generated] "));
    let resp = state
        .infer(InferRequest { capability: s("text-generation"), input: Json::Str(s("prompt")) })
        .unwrap();
    assert_eq!(text_of(&resp.output), Some("[generated] "));
}

#[test]
fn echo_returns_any_value_unchanged() {
    let state = make_state();
    let input = || Json::Array(vec![Json::Null, Json::Bool(true), Json::Number(s("-1.5e3"))]);
    let resp = state.infer(InferRequest { capability: s("echo"), input: input() }).unwrap();
    assert_eq!(resp.capability, "echo");
    assert_eq!(resp.output, input());
}

#[test]
fn other_advertised_capability_echoes() {
    let mut state = make_state();
    state.capabilities.push(Capability { name: s("summarise"), description: None });
    let resp = state.infer(InferRequest { capability: s("summarise"), input: payload() }).unwrap();
    assert_eq!(resp.output, payload());
}

#[test]
fn refusal_names_the_capability() {
    let state = make_state();
    let err = state
        .infer(InferRequest { capability: s("unknown-capability"), input: Json::Null })
        .unwrap_err();
    assert_eq!(err.message, "Capability 'unknown-capability' not supported by this node");
    assert_eq!(
        err.body(),
        object(vec![(
            "error",
            Json::Str(s("Capability 'unknown-capability' not supported by this node"))
        )])
    );
}

#[test]
fn node_without_capabilities_refuses_everything() {
    let mut state = make_state();
    state.capabilities.clear();
    assert!(state.infer(InferRequest { capability: s("echo"), input: Json::Null }).is_err());
    assert!(!state.supports(&s("echo")));
}

#[test]
fn json_lookup_takes_the_first_member() {
    let v = object(vec![("a", Json::Bool(true)), ("a", Json::Bool(false))]);
    assert_eq!(v.get("a"), Some(&Json::Bool(true)));
    assert_eq!(v.get("b"), None);
    assert_eq!(Json::Null.get("a"), None);
    assert_eq!(Json::Str(s("x")).as_str(), Some("x"));
    assert_eq!(Json::Bool(true).as_str(), None);
}

#[test]
fn registration_request_and_url() {
    let state = make_state();
    let req = state.registration_request(&s("http://10.0.0.2:4000"));
    assert_eq!(req.name, "test-node");
    assert_eq!(req.url, "http://10.0.0.2:4000");
    assert_eq!(req.capabilities, state.capabilities);
    assert_eq!(state.registration_url(), "http://localhost:3000/api/v1/nodes");
}

#[test]
fn successful_registration_records_id() {
    let mut state = make_state();
    let id: u128 = 0x67e5_5044_10b1_426f_9247_bb68_0e5f_e0c8;
    let report = state.record_registration(RegistrationReply::Answered { status: 201, id: Some(id) });
    assert_eq!(report, RegistrationReport::Registered(id));
    assert_eq!(state.node_id, Some(id));
    assert_eq!(
        state.deregistration_url(),
        Some(s("http://localhost:3000/api/v1/nodes/67e55044-10b1-426f-9247-bb680e5fe0c8"))
    );
}

#[test]
fn failed_registration_leaves_node_unregistered() {
    let mut state = make_state();
    assert_eq!(
        state.record_registration(RegistrationReply::Unreachable),
        RegistrationReport::Unreachable
    );
    assert_eq!(
        state.record_registration(RegistrationReply::Answered { status: 500, id: Some(1) }),
        RegistrationReport::Refused(500)
    );
    assert_eq!(
        state.record_registration(RegistrationReply::Answered { status: 200, id: None }),
        RegistrationReport::UnreadableAnswer
    );
    assert_eq!(state.node_id, None);
    assert_eq!(state.deregistration_url(), None);
}

#[test]
fn deregistration_url_uses_lower_case_hyphenated_id() {
    let mut state = make_state();
    state.node_id = Some(0x0000_0000_0000_4000_8000_0000_0000_00ab);
    assert_eq!(
        state.deregistration_url(),
        Some(s("http://localhost:3000/api/v1/nodes/00000000-0000-4000-8000-0000000000ab"))
    );
    state.node_id = Some(u128::MAX);
    assert_eq!(
        state.deregistration_url(),
        Some(s("http://localhost:3000/api/v1/nodes/ffffffff-ffff-ffff-ffff-ffffffffffff"))
    );
}

#[test]
fn success_statuses() {
    assert!(is_success_status(200));
    assert!(is_success_status(204));
    assert!(is_success_status(299));
    assert!(!is_success_status(199));
    assert!(!is_success_status(300));
    assert!(!is_success_status(404));
}

#[test]
fn default_capabilities_are_text_generation_and_echo() {
    let caps = default_capabilities();
    assert_eq!(caps.len(), 2);
    assert_eq!(caps[0].name, "text-generation");
    assert_eq!(caps[0].description.as_deref(), Some("Simple echo-based text generation"));
    assert_eq!(caps[1].name, "echo");
    assert_eq!(caps[1].description.as_deref(), Some("Echoes the input back as output"));
}

#[test]
fn config_defaults() {
    let c = NodeConfig::from_settings(None, None, None, None);
    assert_eq!(c.name, "ai-node");
    assert_eq!(c.port, 4000);
    assert_eq!(c.public_url, "http://localhost:4000");
    assert_eq!(c.broker_url, "http://localhost:3000");
}

#[test]
fn config_from_settings() {
    let c = NodeConfig::from_settings(Some(s("node-2")), Some(s("4001")), None, None);
    assert_eq!(c.name, "node-2");
    assert_eq!(c.port, 4001);
    assert_eq!(c.public_url, "http://localhost:4001");
    let c = NodeConfig::from_settings(
        None,
        Some(s("4001")),
        Some(s("http://192.168.1.42:4000")),
        Some(s("http://broker:3000")),
    );
    assert_eq!(c.public_url, "http://192.168.1.42:4000");
    assert_eq!(c.broker_url, "http://broker:3000");
}

#[test]
fn config_with_unreadable_port_uses_4000() {
    for bad in ["", "abc", "70000", "-1", " 80", "80 ", "+"] {
        let c = NodeConfig::from_settings(None, Some(s(bad)), None, None);
        assert_eq!(c.port, 4000, "port text {bad:?}");
        assert_eq!(c.public_url, "http://localhost:4000");
    }
}

#[test]
fn port_parsing_agrees_with_std() {
    for text in [
        "0", "7", "80", "+80", "0080", "65535", "65536", "99999", "", "+", "++1", "-0", "1_0",
        "８０", "123456789012345678901234567890",
    ] {
        assert_eq!(parse_u16(text), text.parse::<u16>().ok(), "text {text:?}");
    }
}

#[test]
fn port_text_reads_back() {
    for n in [0u16, 1, 9, 10, 99, 100, 4000, 65535] {
        let t = u16_text(n);
        assert_eq!(t, n.to_string());
        assert_eq!(parse_u16(&t), Some(n));
    }
}

#[test]
fn cloned_values_are_equal() {
    let v = Json::Array(vec![payload(), Json::Null, object(vec![("k", Json::Array(vec![]))])]);
    assert_eq!(v.clone(), v);
    let req = InferRequest { capability: s("echo"), input: payload() };
    assert_eq!(req.clone(), req);
    let resp = make_state().infer(req.clone()).unwrap();
    assert_eq!(resp.clone(), resp);
}
