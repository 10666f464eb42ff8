//! A graph store held in memory, for tests and for running without a server.
use vstd::prelude::*;
use crate::value::{Label, Node, Property, Value, bag_view, copy_props, find_property, same_value};
use crate::client::{DbActionError, GraphClient, StoredNode, has_property, is_stored, node_model};

verus! {

/// The largest identity the store hands out.
pub const MAX_ID: i64 = 0x7fff_ffff_ffff_fffe;

/// A graph store in memory. A node's identity is its position; a deleted
/// node leaves an empty slot, so identities are never reused.
pub struct MemoryStore {
    slots: Vec<Option<(Label, Vec<Property>)>>,
}

pub open spec fn stored_of(e: (Label, Vec<Property>)) -> StoredNode {
    StoredNode { label: e.0, props: bag_view(e.1@) }
}

impl MemoryStore {
    #[verifier::type_invariant]
    spec fn fits(&self) -> bool {
        self.slots@.len() <= MAX_ID + 1
    }

    /// An empty store.
    pub fn new() -> (r: MemoryStore)
        ensures
            r.graph() == Map::<i64, StoredNode>::empty(),
    {
        let r = MemoryStore { slots: Vec::new() };
        assert(r.graph() =~= Map::<i64, StoredNode>::empty());
        r
    }

    fn node_at(&self, i: usize) -> (r: Option<Node>)
        requires
            i < self.slots@.len(),
        ensures
            match r {
                Some(n) => n.id == i && is_stored(self.graph(), n),
                None => !self.graph().contains_key(i as i64),
            },
    {
        proof { use_type_invariant(self); }
        match &self.slots[i] {
            Some((label, props)) => Some(Node { id: i as i64, label: *label, props: copy_props(props) }),
            None => None,
        }
    }
}

impl GraphClient for MemoryStore {
    closed spec fn graph(&self) -> Map<i64, StoredNode> {
        Map::new(
            |id: i64| 0 <= id < self.slots@.len() && self.slots@[id as int] is Some,
            |id: i64| stored_of(self.slots@[id as int]->Some_0),
        )
    }

    fn create(&mut self, label: Label, props: &Vec<Property>) -> (r: Result<Node, DbActionError>) {
        proof { use_type_invariant(&*self); }
        if self.slots.len() > MAX_ID as usize {
            return Err(DbActionError::Constraint);
        }
        let id = self.slots.len() as i64;
        let mut slots: Vec<Option<(Label, Vec<Property>)>> = Vec::new();
        std::mem::swap(&mut slots, &mut self.slots);
        slots.push(Some((label, copy_props(props))));
        self.slots = slots;
        let n = Node { id, label, props: copy_props(props) };
        assert(self.graph() =~= old(self).graph().insert(n.id, node_model(n).1));
        Ok(n)
    }

    fn fetch_by_id(&self, label: Label, id: i64) -> (r: Result<Option<Node>, DbActionError>) {
        proof { use_type_invariant(self); }
        if id < 0 || id >= self.slots.len() as i64 {
            return Ok(None);
        }
        match self.node_at(id as usize) {
            Some(n) => if n.label == label { Ok(Some(n)) } else { Ok(None) },
            None => Ok(None),
        }
    }

    fn fetch_by_property(&self, label: Label, key: &String, value: &Value) -> (r: Result<Vec<Node>, DbActionError>) {
        proof { use_type_invariant(self); }
        let g = Ghost(self.graph());
        let mut out: Vec<Node> = Vec::new();
        let mut i: usize = 0;
        while i < self.slots.len()
            invariant
                g@ == self.graph(),
                i <= self.slots@.len(),
                self.slots@.len() <= MAX_ID + 1,
                forall|k: int| 0 <= k < out@.len() ==> is_stored(g@, #[trigger] out@[k])
                    && has_property(g@[out@[k].id], label, key@, value@),
                forall|id: i64| 0 <= id < i && g@.contains_key(id)
                    && has_property(#[trigger] g@[id], label, key@, value@)
                    ==> exists|k: int| 0 <= k < out@.len() && (#[trigger] out@[k]).id == id,
            decreases self.slots.len() - i,
        {
            let ghost before = out@;
            match self.node_at(i) {
                Some(n) => {
                    if n.label == label {
                        match find_property(&n.props, key) {
                            Some(v) => {
                                if same_value(v, value) {
                                    out.push(n);
                                    assert(out@[out@.len() - 1].id == i);
                                }
                            },
                            None => {},
                        }
                    }
                },
                None => {},
            }
            assert forall|id: i64| 0 <= id < i + 1 && g@.contains_key(id)
                && has_property(#[trigger] g@[id], label, key@, value@)
                implies exists|k: int| 0 <= k < out@.len() && (#[trigger] out@[k]).id == id by {
                if id < i {
                    let k = choose|k: int| 0 <= k < before.len() && (#[trigger] before[k]).id == id;
                    assert(out@[k] == before[k]);
                }
            }
            i = i + 1;
        }
        Ok(out)
    }

    fn fetch_all(&self, label: Label) -> (r: Result<Vec<Node>, DbActionError>) {
        proof { use_type_invariant(self); }
        let g = Ghost(self.graph());
        let mut out: Vec<Node> = Vec::new();
        let mut i: usize = 0;
        while i < self.slots.len()
            invariant
                g@ == self.graph(),
                i <= self.slots@.len(),
                self.slots@.len() <= MAX_ID + 1,
                forall|k: int| 0 <= k < out@.len() ==> is_stored(g@, #[trigger] out@[k])
                    && out@[k].label == label,
                forall|id: i64| 0 <= id < i && g@.contains_key(id) && (#[trigger] g@[id]).label == label
                    ==> exists|k: int| 0 <= k < out@.len() && (#[trigger] out@[k]).id == id,
            decreases self.slots.len() - i,
        {
            let ghost before = out@;
            match self.node_at(i) {
                Some(n) => {
                    if n.label == label {
                        out.push(n);
                        assert(out@[out@.len() - 1].id == i);
                    }
                },
                None => {},
            }
            assert forall|id: i64| 0 <= id < i + 1 && g@.contains_key(id) && (#[trigger] g@[id]).label == label
                implies exists|k: int| 0 <= k < out@.len() && (#[trigger] out@[k]).id == id by {
                if id < i {
                    let k = choose|k: int| 0 <= k < before.len() && (#[trigger] before[k]).id == id;
                    assert(out@[k] == before[k]);
                }
            }
            i = i + 1;
        }
        Ok(out)
    }

    fn replace_properties(&mut self, label: Label, id: i64, props: &Vec<Property>) -> (r: Result<Option<Node>, DbActionError>) {
        proof { use_type_invariant(&*self); }
        if id < 0 || id >= self.slots.len() as i64 {
            return Ok(None);
        }
        let found = match &self.slots[id as usize] {
            Some((l, _)) => *l == label,
            None => false,
        };
        if !found {
            return Ok(None);
        }
        let mut slots: Vec<Option<(Label, Vec<Property>)>> = Vec::new();
        std::mem::swap(&mut slots, &mut self.slots);
        slots.set(id as usize, Some((label, copy_props(props))));
        self.slots = slots;
        let n = Node { id, label, props: copy_props(props) };
        assert(self.graph() =~= old(self).graph().insert(id, node_model(n).1));
        Ok(Some(n))
    }

    fn delete(&mut self, label: Label, id: i64) -> (r: Result<(), DbActionError>) {
        proof { use_type_invariant(&*self); }
        if id < 0 || id >= self.slots.len() as i64 {
            return Ok(());
        }
        let found = match &self.slots[id as usize] {
            Some((l, _)) => *l == label,
            None => false,
        };
        if found {
            let mut slots: Vec<Option<(Label, Vec<Property>)>> = Vec::new();
            std::mem::swap(&mut slots, &mut self.slots);
            slots.set(id as usize, None);
            self.slots = slots;
            assert(self.graph() =~= old(self).graph().remove(id));
        }
        Ok(())
    }
}

} // verus!
