//! Step-by-step construction of edges.

use crate::model::error::{ModelError, ModelErrorView};
use crate::model::graph::edge::Edge;
use crate::model::ident::{is_random_variant, Uuid};
use vstd::prelude::*;
use vstd::string::StringExecFns;

verus! {

/// Collects the parts of an edge.
#[derive(Clone, Copy, Debug, PartialEq, Eq, Structural)]
pub struct EdgeBuilder {
    pub id: Option<Uuid>,
    pub source_node_id: Option<Uuid>,
    pub source_port_id: Option<Uuid>,
    pub target_node_id: Option<Uuid>,
    pub target_port_id: Option<Uuid>,
}

/// The message of the first part that `builder` lacks, in the order source
/// node, source port, target node, target port; `None` if it lacks none.
pub open spec fn missing_edge_part(builder: EdgeBuilder) -> Option<Seq<char>> {
    if builder.source_node_id is None {
        Some("Edge source_node_id is required"@)
    } else if builder.source_port_id is None {
        Some("Edge source_port_id is required"@)
    } else if builder.target_node_id is None {
        Some("Edge target_node_id is required"@)
    } else if builder.target_port_id is None {
        Some("Edge target_port_id is required"@)
    } else {
        None
    }
}

impl Default for EdgeBuilder {
    /// The builder to which nothing was given yet.
    fn default() -> (builder: Self)
        ensures
            builder == (EdgeBuilder {
                id: None,
                source_node_id: None,
                source_port_id: None,
                target_node_id: None,
                target_port_id: None,
            }),
    {
        EdgeBuilder {
            id: None,
            source_node_id: None,
            source_port_id: None,
            target_node_id: None,
            target_port_id: None,
        }
    }
}

impl EdgeBuilder {
    /// Sets the identifier of the edge.
    pub fn with_id(self, id: Uuid) -> (builder: Self)
        ensures
            builder == (EdgeBuilder { id: Some(id), ..self }),
    {
        let mut builder = self;
        builder.id = Some(id);
        builder
    }

    /// Sets the node that the edge leaves.
    pub fn with_source_node_id(self, source_node_id: Uuid) -> (builder: Self)
        ensures
            builder == (EdgeBuilder { source_node_id: Some(source_node_id), ..self }),
    {
        let mut builder = self;
        builder.source_node_id = Some(source_node_id);
        builder
    }

    /// Sets the output port that the edge leaves.
    pub fn with_source_port_id(self, source_port_id: Uuid) -> (builder: Self)
        ensures
            builder == (EdgeBuilder { source_port_id: Some(source_port_id), ..self }),
    {
        let mut builder = self;
        builder.source_port_id = Some(source_port_id);
        builder
    }

    /// Sets the node that the edge enters.
    pub fn with_target_node_id(self, target_node_id: Uuid) -> (builder: Self)
        ensures
            builder == (EdgeBuilder { target_node_id: Some(target_node_id), ..self }),
    {
        let mut builder = self;
        builder.target_node_id = Some(target_node_id);
        builder
    }

    /// Sets the input port that the edge enters.
    pub fn with_target_port_id(self, target_port_id: Uuid) -> (builder: Self)
        ensures
            builder == (EdgeBuilder { target_port_id: Some(target_port_id), ..self }),
    {
        let mut builder = self;
        builder.target_port_id = Some(target_port_id);
        builder
    }

    /// Builds the edge. Both nodes and both ports are required; the first one
    /// missing, in the order source node, source port, target node, target
    /// port, is reported. An identifier that was not given is drawn at random.
    pub fn build(self) -> (result: Result<Edge, ModelError>)
        ensures
            match missing_edge_part(self) {
                Some(message) => result matches Err(error) && error@ == (
                ModelErrorView::ModelError { message }),
                None => result matches Ok(edge) && edge@.source_node_id == self.source_node_id->0
                    && edge@.source_port_id == self.source_port_id->0 && edge@.target_node_id
                    == self.target_node_id->0 && edge@.target_port_id == self.target_port_id->0 && (
                match self.id {
                    Some(id) => edge@.id == id,
                    None => is_random_variant(edge@.id.bits),
                }),
            },
    {
        let id = match self.id {
            Some(id) => id,
            None => Uuid::new_v4(),
        };
        let source_node_id = match self.source_node_id {
            Some(id) => id,
            None => {
                return Err(ModelError::model(String::from_str("Edge source_node_id is required")));
            },
        };
        let source_port_id = match self.source_port_id {
            Some(id) => id,
            None => {
                return Err(ModelError::model(String::from_str("Edge source_port_id is required")));
            },
        };
        let target_node_id = match self.target_node_id {
            Some(id) => id,
            None => {
                return Err(ModelError::model(String::from_str("Edge target_node_id is required")));
            },
        };
        let target_port_id = match self.target_port_id {
            Some(id) => id,
            None => {
                return Err(ModelError::model(String::from_str("Edge target_port_id is required")));
            },
        };
        Ok(Edge::from_parts(id, source_node_id, source_port_id, target_node_id, target_port_id))
    }
}

} // verus!
