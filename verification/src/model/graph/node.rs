//! Nodes: instances of node definitions placed in a graph.

use crate::model::ident::Uuid;
use vstd::prelude::*;

verus! {

/// A named instance of a node definition.
#[derive(Debug)]
pub struct Node {
    pub(crate) id: Uuid,
    pub(crate) name: String,
    pub(crate) definition_id: Uuid,
}

/// The mathematical value of a [`Node`].
pub struct NodeView {
    pub id: Uuid,
    pub name: Seq<char>,
    pub definition_id: Uuid,
}

impl View for Node {
    type V = NodeView;

    closed spec fn view(&self) -> NodeView {
        NodeView { id: self.id, name: self.name@, definition_id: self.definition_id }
    }
}

/// The values of a sequence of nodes, in the same order.
pub open spec fn node_views(nodes: Seq<Node>) -> Seq<NodeView> {
    nodes.map_values(|node: Node| node@)
}

impl Node {
    /// The node with the given parts.
    pub(crate) fn from_parts(id: Uuid, name: String, definition_id: Uuid) -> (node: Node)
        ensures
            node@ == (NodeView { id, name: name@, definition_id }),
    {
        Node { id, name, definition_id }
    }

    /// The identifier of the node.
    pub fn id(&self) -> (id: Uuid)
        ensures
            id == self@.id,
    {
        self.id
    }

    /// The name of the node.
    pub fn name(&self) -> (name: &str)
        ensures
            name@ == self@.name,
    {
        self.name.as_str()
    }

    /// The identifier of the definition that the node is an instance of.
    pub fn definition_id(&self) -> (id: Uuid)
        ensures
            id == self@.definition_id,
    {
        self.definition_id
    }
}

} // verus!
