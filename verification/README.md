# aihome

The verified core of AI@home, an edge-compute setup in which AI nodes
register with a broker and answer inference requests.

- `src/` is the library, verified with Verus:
  - `model.rs`: the shared data model (capabilities, node records, request
    and response bodies, health response);
  - `json.rs`: the JSON values that inference requests carry;
  - `registry.rs`: the broker's registry (register, list, deregister);
  - `node.rs`: a node's inference rules, its settings and its dealings with
    the broker;
  - `text.rs`: reading and writing port numbers;
  - `outside.rs`: the trusted calls into `uuid` and `chrono`;
  - `laws.rs`: laws relating the operations to one another.
- `app/` is the program around it (`aihome broker`, `aihome node`): HTTP with
  axum and reqwest, JSON with serde, logging, signals and the environment.
- `tests/` exercises the library.
