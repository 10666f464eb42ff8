//! The interface to a graph store, stated over a model of its contents.
use vstd::prelude::*;
use crate::value::{Label, Node, Property, Scalar, Value, bag_view, lookup};
use crate::entity::DecodeError;

verus! {

/// Why a store operation failed.
#[derive(Clone, Copy, Debug, PartialEq, Eq, Structural)]
pub enum DbActionError {
    /// The connection to the store failed or was lost.
    Transport,
    /// The store rejected the query.
    Query,
    /// The store refused a write that would break one of its constraints.
    Constraint,
    /// No node of the entity's type has the entity's identity.
    NotFound,
    /// The entity has no identity, so it was never stored.
    NoIdentity,
    /// A node could not be read as the entity its label names.
    Decode(DecodeError),
}

/// What the store holds under one identity.
pub struct StoredNode {
    pub label: Label,
    pub props: Seq<(Seq<char>, Scalar)>,
}

/// The model of a node as it was returned: its identity and what is stored there.
pub open spec fn node_model(n: Node) -> (i64, StoredNode) {
    (n.id, StoredNode { label: n.label, props: bag_view(n.props@) })
}

/// `n` is the node stored in `g` under its identity.
pub open spec fn is_stored(g: Map<i64, StoredNode>, n: Node) -> bool {
    g.contains_key(n.id) && g[n.id] == node_model(n).1
}

/// An error that the store itself reports, as opposed to one that the
/// library finds in what it was given or in what the store returned.
pub open spec fn is_store_error(e: DbActionError) -> bool {
    e is Transport || e is Query || e is Constraint
}

/// A node with label `label` whose property `key` holds `v`.
pub open spec fn has_property(s: StoredNode, label: Label, key: Seq<char>, v: Scalar) -> bool {
    s.label == label && lookup(s.props, key) == Some(v)
}

/// A connection to a graph store. Each query binds its values as parameters;
/// the label is the only part of a query taken from an entity type. Every
/// operation fails only with a store error, and a write that fails leaves
/// the store as it was.
pub trait GraphClient {
    /// The nodes that the store holds, by identity. Generic code never sees
    /// this default body. The library's own stores define it and are proved
    /// against the contracts below; a client of a remote server, written
    /// outside the library, keeps the default and is held to them by nobody.
    open spec fn graph(&self) -> Map<i64, StoredNode> {
        Map::empty()
    }

    /// Creates a node with a fresh identity.
    fn create(&mut self, label: Label, props: &Vec<Property>) -> (r: Result<Node, DbActionError>)
        ensures
            r matches Ok(n) ==> {
                &&& !old(self).graph().contains_key(n.id)
                &&& n.label == label
                &&& bag_view(n.props@) == bag_view(props@)
                &&& final(self).graph() == old(self).graph().insert(n.id, node_model(n).1)
            },
            r matches Err(e) ==> is_store_error(e) && final(self).graph() == old(self).graph(),
    ;

    /// The node with identity `id` and label `label`, if there is one.
    fn fetch_by_id(&self, label: Label, id: i64) -> (r: Result<Option<Node>, DbActionError>)
        ensures
            r matches Ok(Some(n)) ==> n.id == id && n.label == label && is_stored(self.graph(), n),
            r matches Ok(None) ==> !(self.graph().contains_key(id) && self.graph()[id].label == label),
            r matches Err(e) ==> is_store_error(e),
    ;

    /// The nodes with label `label` whose property `key` holds `value`.
    fn fetch_by_property(&self, label: Label, key: &String, value: &Value) -> (r: Result<Vec<Node>, DbActionError>)
        ensures
            r matches Ok(v) ==> {
                &&& forall|i: int| 0 <= i < v@.len() ==> is_stored(self.graph(), #[trigger] v@[i])
                    && has_property(self.graph()[v@[i].id], label, key@, value@)
                &&& forall|id: i64| self.graph().contains_key(id)
                    && has_property(#[trigger] self.graph()[id], label, key@, value@)
                    ==> exists|i: int| 0 <= i < v@.len() && (#[trigger] v@[i]).id == id
            },
            r matches Err(e) ==> is_store_error(e),
    ;

    /// Every node with label `label`.
    fn fetch_all(&self, label: Label) -> (r: Result<Vec<Node>, DbActionError>)
        ensures
            r matches Ok(v) ==> {
                &&& forall|i: int| 0 <= i < v@.len() ==> is_stored(self.graph(), #[trigger] v@[i])
                    && v@[i].label == label
                &&& forall|id: i64| self.graph().contains_key(id) && (#[trigger] self.graph()[id]).label == label
                    ==> exists|i: int| 0 <= i < v@.len() && (#[trigger] v@[i]).id == id
            },
            r matches Err(e) ==> is_store_error(e),
    ;

    /// Replaces the properties of the node with identity `id` and label
    /// `label`, if there is one.
    fn replace_properties(&mut self, label: Label, id: i64, props: &Vec<Property>) -> (r: Result<Option<Node>, DbActionError>)
        ensures
            r matches Ok(Some(n)) ==> {
                &&& old(self).graph().contains_key(id) && old(self).graph()[id].label == label
                &&& n.id == id && n.label == label && bag_view(n.props@) == bag_view(props@)
                &&& final(self).graph() == old(self).graph().insert(id, node_model(n).1)
            },
            r matches Ok(None) ==> {
                &&& !(old(self).graph().contains_key(id) && old(self).graph()[id].label == label)
                &&& final(self).graph() == old(self).graph()
            },
            r matches Err(e) ==> is_store_error(e) && final(self).graph() == old(self).graph(),
    ;

    /// Deletes the node with identity `id` and label `label`, if there is one.
    fn delete(&mut self, label: Label, id: i64) -> (r: Result<(), DbActionError>)
        ensures
            r is Ok ==> final(self).graph() == if old(self).graph().contains_key(id)
                && old(self).graph()[id].label == label {
                old(self).graph().remove(id)
            } else {
                old(self).graph()
            },
            r matches Err(e) ==> is_store_error(e) && final(self).graph() == old(self).graph(),
    ;
}

} // verus!
