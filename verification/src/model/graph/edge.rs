//! Edges: connections from an output port of one node to an input port of
//! another.

use crate::model::ident::Uuid;
use vstd::prelude::*;

verus! {

/// A connection between two ports.
#[derive(Clone, Copy, Debug, PartialEq, Eq, Structural)]
pub struct Edge {
    pub(crate) id: Uuid,
    pub(crate) source_node_id: Uuid,
    pub(crate) source_port_id: Uuid,
    pub(crate) target_node_id: Uuid,
    pub(crate) target_port_id: Uuid,
}

/// The mathematical value of an [`Edge`].
pub struct EdgeView {
    pub id: Uuid,
    pub source_node_id: Uuid,
    pub source_port_id: Uuid,
    pub target_node_id: Uuid,
    pub target_port_id: Uuid,
}

impl View for Edge {
    type V = EdgeView;

    closed spec fn view(&self) -> EdgeView {
        EdgeView {
            id: self.id,
            source_node_id: self.source_node_id,
            source_port_id: self.source_port_id,
            target_node_id: self.target_node_id,
            target_port_id: self.target_port_id,
        }
    }
}

/// The values of a sequence of edges, in the same order.
pub open spec fn edge_views(edges: Seq<Edge>) -> Seq<EdgeView> {
    edges.map_values(|edge: Edge| edge@)
}

impl Edge {
    /// The edge with the given parts.
    pub(crate) fn from_parts(
        id: Uuid,
        source_node_id: Uuid,
        source_port_id: Uuid,
        target_node_id: Uuid,
        target_port_id: Uuid,
    ) -> (edge: Edge)
        ensures
            edge@ == (EdgeView {
                id,
                source_node_id,
                source_port_id,
                target_node_id,
                target_port_id,
            }),
    {
        Edge { id, source_node_id, source_port_id, target_node_id, target_port_id }
    }

    /// The identifier of the edge.
    pub fn id(&self) -> (id: Uuid)
        ensures
            id == self@.id,
    {
        self.id
    }

    /// The node that the edge leaves.
    pub fn source_node_id(&self) -> (id: Uuid)
        ensures
            id == self@.source_node_id,
    {
        self.source_node_id
    }

    /// The output port that the edge leaves.
    pub fn source_port_id(&self) -> (id: Uuid)
        ensures
            id == self@.source_port_id,
    {
        self.source_port_id
    }

    /// The node that the edge enters.
    pub fn target_node_id(&self) -> (id: Uuid)
        ensures
            id == self@.target_node_id,
    {
        self.target_node_id
    }

    /// The input port that the edge enters.
    pub fn target_port_id(&self) -> (id: Uuid)
        ensures
            id == self@.target_port_id,
    {
        self.target_port_id
    }
}

} // verus!
