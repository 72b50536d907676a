//! The broker's registry of live nodes.

use vstd::prelude::*;

use vstd::std_specs::hash::spec_hash_map_iter;
use vstd::std_specs::iter::IteratorSpec;

use std::collections::HashMap;

use crate::model::{NodeInfo, NodeRecord, RegisterRequest, RegisterResponse, Timestamp};
use crate::outside::{is_random_uuid, new_node_id, now_utc};

verus! {

broadcast use vstd::std_specs::hash::group_hash_axioms;

/// The record that registering `req` under `id` at time `t` stores.
pub open spec fn record_for(id: u128, req: RegisterRequest, t: Timestamp) -> NodeRecord {
    NodeRecord {
        id,
        name: req.name@,
        url: req.url@,
        capabilities: req.capabilities@,
        registered_at: t,
    }
}

/// What holds of every registry: finitely many nodes, each stored under
/// its own identifier.
pub open spec fn valid_registry(m: Map<u128, NodeRecord>) -> bool {
    &&& m.dom().finite()
    &&& forall|k: u128| #[trigger] m.contains_key(k) ==> m[k].id == k
}

/// Whether `s` lists the nodes of `m`: each node once, as the registry
/// holds it, in any order.
pub open spec fn lists(m: Map<u128, NodeRecord>, s: Seq<NodeInfo>) -> bool {
    &&& s.len() == m.dom().len()
    &&& forall|i: int| 0 <= i < s.len() ==> #[trigger] m.contains_key(s[i].id) && m[s[i].id] == s[i]@
    &&& forall|i: int, j: int| 0 <= i < j < s.len() ==> s[i].id != s[j].id
    &&& forall|k: u128| #[trigger] m.contains_key(k) ==> exists|i: int| 0 <= i < s.len() && s[i].id == k
}

/// The registry of the nodes that are currently registered, keyed by the
/// identifier the broker gave each of them.
pub struct Registry {
    nodes: HashMap<u128, NodeInfo>,
}

impl View for Registry {
    type V = Map<u128, NodeRecord>;

    closed spec fn view(&self) -> Map<u128, NodeRecord> {
        Map::new(|k: u128| self.nodes@.contains_key(k), |k: u128| self.nodes@[k]@)
    }
}

impl Registry {
    /// Every node is stored under its own identifier.
    #[verifier::type_invariant]
    closed spec fn keyed_by_id(self) -> bool {
        forall|k: u128| #[trigger] self.nodes@.contains_key(k) ==> self.nodes@[k].id == k
    }

    /// An empty registry.
    pub fn new() -> (r: Self)
        ensures
            r@ == Map::<u128, NodeRecord>::empty(),
            valid_registry(r@),
    {
        let r = Registry { nodes: HashMap::new() };
        assert(r@ =~= Map::<u128, NodeRecord>::empty());
        assert(r@.dom() =~= Set::<u128>::empty());
        r
    }

    /// Stores the node that `req` describes under `id`, registered at `t`,
    /// and answers with the identifier and the URL. A node already stored
    /// under `id` is replaced.
    pub fn register_node(&mut self, id: u128, t: Timestamp, req: RegisterRequest) -> (r: RegisterResponse)
        ensures
            final(self)@ == old(self)@.insert(id, record_for(id, req, t)),
            final(self)@[id].name == req.name@,
            final(self)@[id].url == req.url@,
            final(self)@[id].capabilities == req.capabilities@,
            final(self)@[id].registered_at == t,
            valid_registry(final(self)@),
            r.id == id,
            r.url@ == req.url@,
    {
        proof { use_type_invariant(&*self); }
        let url = req.url.clone();
        let node = NodeInfo {
            id,
            name: req.name,
            url: req.url,
            capabilities: req.capabilities,
            registered_at: t,
        };
        let mut nodes = HashMap::new();
        std::mem::swap(&mut nodes, &mut self.nodes);
        nodes.insert(id, node);
        self.nodes = nodes;
        assert(self@ =~= old(self)@.insert(id, record_for(id, req, t)));
        proof {
            use_type_invariant(&*self);
            assert(self@.dom() =~= self.nodes@.dom());
        }
        RegisterResponse { id, url }
    }

    /// Registers the node that `req` describes under a fresh random
    /// identifier, stamped with the current time, and answers with the
    /// identifier and the URL. Which identifier and which time come from
    /// the random source and the clock; everything else is fixed.
    pub fn register(&mut self, req: RegisterRequest) -> (r: RegisterResponse)
        ensures
            is_random_uuid(r.id),
            r.url@ == req.url@,
            final(self)@.contains_key(r.id),
            final(self)@[r.id].id == r.id,
            final(self)@[r.id].name == req.name@,
            final(self)@[r.id].url == req.url@,
            final(self)@[r.id].capabilities == req.capabilities@,
            final(self)@[r.id].registered_at.secs >= 0,
            final(self)@[r.id].registered_at.nanos < 1_000_000_000,
            final(self)@ == old(self)@.insert(
                r.id,
                record_for(r.id, req, final(self)@[r.id].registered_at),
            ),
            valid_registry(final(self)@),
    {
        let id = new_node_id();
        let t = now_utc();
        self.register_node(id, t, req)
    }

    /// Removes the node registered under `id` and gives it back; gives
    /// nothing, and changes nothing, when no node has that identifier.
    pub fn deregister(&mut self, id: u128) -> (r: Option<NodeInfo>)
        ensures
            final(self)@ == old(self)@.remove(id),
            valid_registry(final(self)@),
            match r {
                Some(n) => old(self)@.contains_key(id) && n@ == old(self)@[id],
                None => !old(self)@.contains_key(id),
            },
    {
        proof { use_type_invariant(&*self); }
        let mut nodes = HashMap::new();
        std::mem::swap(&mut nodes, &mut self.nodes);
        let r = nodes.remove(&id);
        self.nodes = nodes;
        assert(self@ =~= old(self)@.remove(id));
        proof {
            use_type_invariant(&*self);
            assert(self@.dom() =~= self.nodes@.dom());
        }
        r
    }

    /// All registered nodes, each once, in the order the map yields them.
    pub fn list_nodes(&self) -> (r: Vec<NodeInfo>)
        ensures
            lists(self@, r@),
            valid_registry(self@),
    {
        proof { use_type_invariant(self); }
        let mut r: Vec<NodeInfo> = Vec::new();
        let entries = self.nodes.iter();
        let ghost all = entries.remaining();
        assert(all == spec_hash_map_iter(&self.nodes).remaining());
        for (k, v) in it: entries
            invariant
                it.seq() == all,
                r.len() == it.index(),
                forall|i: int| 0 <= i < r.len() ==> r[i]@ == (*it.seq()[i].1)@,
        {
            r.push(v.copied());
        }
        proof {
            assert(self@.dom() =~= self.nodes@.dom());
            assert forall|i: int| 0 <= i < r.len() implies #[trigger] self@.contains_key(r[i].id)
                && self@[r[i].id] == r[i]@ by {
                assert(self.nodes@.contains_key(*all[i].0));
            }
            assert forall|i: int, j: int| 0 <= i < j < r.len() implies r[i].id != r[j].id by {
                assert(self.nodes@.contains_key(*all[i].0));
                assert(self.nodes@.contains_key(*all[j].0));
                if r[i].id == r[j].id {
                    assert(all[i] == all[j]);
                }
            }
            assert forall|k: u128| #[trigger] self@.contains_key(k) implies exists|i: int|
                0 <= i < r.len() && r[i].id == k by {
                assert(self.nodes@.contains_key(k));
                assert(all.contains((&k, &self.nodes@[k])));
                let i = choose|i: int| 0 <= i < all.len() && all[i] == (&k, &self.nodes@[k]);
                assert(r[i].id == k);
            }
        }
        r
    }
}

} // verus!
