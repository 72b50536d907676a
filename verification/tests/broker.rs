use aihome::{Capability, HealthResponse, RegisterRequest, Registry};

fn make_registry() -> Registry {
    Registry::new()
}

fn request(name: &str, url: &str, capabilities: Vec<Capability>) -> RegisterRequest {
    RegisterRequest {
        name: name.to_string(),
        url: url.to_string(),
        capabilities,
    }
}

fn capability(name: &str, description: Option<&str>) -> Capability {
    Capability {
        name: name.to_string(),
        description: description.map(|d| d.to_string()),
    }
}

#[test]
fn health_returns_ok() {
    let body = HealthResponse::ok();
    assert_eq!(body.status, "ok");
}

#[test]
fn register_and_list_node() {
    let mut registry = make_registry();

    // Register a node
    let reg = registry.register(request(
        "test-node",
        "http://localhost:4000",
        vec![capability("text-generation", None)],
    ));
    let id = reg.id;

    // List nodes – should contain the one we just registered
    let nodes = registry.list_nodes();
    assert_eq!(nodes.len(), 1);
    assert_eq!(nodes[0].id, id);
    assert_eq!(nodes[0].name, "test-node");
}

#[test]
fn deregister_node() {
    let mut registry = make_registry();

    // Register
    let reg = registry.register(request("node-to-remove", "http://localhost:4001", vec![]));
    let id = reg.id;

    // Deregister
    let removed = registry.deregister(id);
    assert!(removed.is_some());

    // List – should now be empty
    let nodes = registry.list_nodes();
    assert!(nodes.is_empty());
}

#[test]
fn deregister_unknown_node_returns_404() {
    let mut registry = make_registry();
    let fake_id: u128 = 0x9f8e_7d6c_5b4a_4392_8170_6f5e_4d3c_2b1a;
    let removed = registry.deregister(fake_id);
    assert!(removed.is_none());
}

#[test]
fn multiple_nodes_can_register() {
    let mut registry = make_registry();

    for i in 0..3 {
        let name = format!("node-{i}");
        let url = format!("http://localhost:{}", 5000 + i);
        registry.register(request(
            &name,
            &url,
            vec![capability("text-generation", Some("LLM inference"))],
        ));
    }

    let nodes = registry.list_nodes();
    assert_eq!(nodes.len(), 3);
}

#[test]
fn register_response_contains_url() {
    let mut registry = make_registry();
    let url = "http://my-node.local:4000";
    let body = registry.register(request("url-check-node", url, vec![]));
    assert_eq!(body.url, url);
}

#[test]
fn capabilities_are_stored() {
    let mut registry = make_registry();
    let reg = registry.register(request(
        "capable-node",
        "http://localhost:6000",
        vec![
            capability("text-generation", Some("LLM")),
            capability("image-classification", None),
        ],
    ));
    let id = reg.id;

    let nodes = registry.list_nodes();
    let node = nodes.iter().find(|n| n.id == id).unwrap();
    assert_eq!(node.capabilities.len(), 2);
}

#[test]
fn registered_ids_are_random_uuids() {
    let mut registry = make_registry();
    let a = registry.register(request("a", "http://a", vec![])).id;
    let b = registry.register(request("b", "http://b", vec![])).id;
    assert_ne!(a, b);
    for id in [a, b] {
        assert_eq!((id >> 76) & 0xf, 4);
        assert_eq!((id >> 62) & 0x3, 2);
    }
}

#[test]
fn registered_node_keeps_what_it_registered() {
    let mut registry = make_registry();
    let caps = vec![capability("text-generation", Some("LLM")), capability("echo", None)];
    let reg = registry.register(request("kept", "http://kept:1", caps.clone()));
    let nodes = registry.list_nodes();
    assert_eq!(nodes.len(), 1);
    let node = &nodes[0];
    assert_eq!(node.id, reg.id);
    assert_eq!(node.name, "kept");
    assert_eq!(node.url, "http://kept:1");
    assert_eq!(node.capabilities, caps);
    assert!(node.registered_at.secs > 0);
    assert!(node.registered_at.nanos < 1_000_000_000);
}

#[test]
fn register_node_stores_given_id_and_time() {
    let mut registry = make_registry();
    let t = aihome::Timestamp { secs: 1_700_000_000, nanos: 5 };
    let resp = registry.register_node(42, t, request("n", "http://n", vec![]));
    assert_eq!(resp.id, 42);
    assert_eq!(resp.url, "http://n");
    let nodes = registry.list_nodes();
    assert_eq!(nodes.len(), 1);
    assert_eq!(nodes[0].id, 42);
    assert_eq!(nodes[0].registered_at, t);
}

#[test]
fn register_under_same_id_replaces() {
    let mut registry = make_registry();
    let t = aihome::Timestamp { secs: 1, nanos: 0 };
    registry.register_node(7, t, request("first", "http://1", vec![]));
    registry.register_node(7, t, request("second", "http://2", vec![]));
    let nodes = registry.list_nodes();
    assert_eq!(nodes.len(), 1);
    assert_eq!(nodes[0].name, "second");
}

#[test]
fn register_then_deregister_restores_empty_registry() {
    let mut registry = make_registry();
    let t = aihome::Timestamp { secs: 3, nanos: 4 };
    registry.register_node(1, t, request("one", "http://1", vec![]));
    registry.register_node(2, t, request("two", "http://2", vec![]));
    let removed = registry.deregister(2).unwrap();
    assert_eq!(removed.id, 2);
    assert_eq!(removed.name, "two");
    let nodes = registry.list_nodes();
    assert_eq!(nodes.len(), 1);
    assert_eq!(nodes[0].id, 1);
    // a second deregistration finds nothing
    assert!(registry.deregister(2).is_none());
    assert_eq!(registry.list_nodes().len(), 1);
}

#[test]
fn listing_holds_every_node_once() {
    let mut registry = make_registry();
    let t = aihome::Timestamp { secs: 0, nanos: 0 };
    for id in 10u128..20 {
        registry.register_node(id, t, request(&format!("n{id}"), "http://x", vec![]));
    }
    let mut ids: Vec<u128> = registry.list_nodes().iter().map(|n| n.id).collect();
    ids.sort();
    assert_eq!(ids, (10u128..20).collect::<Vec<_>>());
    for n in registry.list_nodes() {
        assert_eq!(n.name, format!("n{}", n.id));
    }
}
