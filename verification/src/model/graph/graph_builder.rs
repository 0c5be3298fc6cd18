//! Step-by-step construction of graphs.

use crate::model::error::{ModelError, ModelErrorView};
use crate::model::graph::edge::EdgeView;
use crate::model::graph::graph::Graph;
use crate::model::graph::node::NodeView;
use crate::model::ident::{is_random_variant, Uuid};
use vstd::prelude::*;
use vstd::string::StringExecFns;

verus! {

/// Collects the parts of a graph.
#[derive(Debug)]
pub struct GraphBuilder {
    id: Option<Uuid>,
    name: Option<String>,
}

/// The mathematical value of a [`GraphBuilder`]: the parts given so far.
pub struct GraphBuilderView {
    pub id: Option<Uuid>,
    pub name: Option<Seq<char>>,
}

impl View for GraphBuilder {
    type V = GraphBuilderView;

    closed spec fn view(&self) -> GraphBuilderView {
        GraphBuilderView {
            id: self.id,
            name: match self.name {
                Some(name) => Some(name@),
                None => None,
            },
        }
    }
}

impl Default for GraphBuilder {
    /// The builder to which nothing was given yet.
    fn default() -> (builder: Self)
        ensures
            builder@ == (GraphBuilderView { id: None, name: None }),
    {
        GraphBuilder { id: None, name: None }
    }
}

impl GraphBuilder {
    /// Sets the identifier of the graph.
    pub fn with_id(self, id: Uuid) -> (builder: Self)
        ensures
            builder@ == (GraphBuilderView { id: Some(id), ..self@ }),
    {
        let mut builder = self;
        builder.id = Some(id);
        builder
    }

    /// Sets the name of the graph.
    pub fn with_name(self, name: &str) -> (builder: Self)
        ensures
            builder@ == (GraphBuilderView { name: Some(name@), ..self@ }),
    {
        let mut builder = self;
        builder.name = Some(String::from_str(name));
        builder
    }

    /// Builds the graph, without nodes or edges. A name is required; an
    /// identifier that was not given is drawn at random.
    pub fn build(self) -> (result: Result<Graph, ModelError>)
        ensures
            match self@.name {
                None => result matches Err(error) && error@ == (ModelErrorView::ModelError {
                    message: "Graph name is required"@,
                }),
                Some(name) => result matches Ok(graph) && graph@.name == name && graph@.nodes
                    == Seq::<NodeView>::empty() && graph@.edges == Seq::<EdgeView>::empty() && (
                match self@.id {
                    Some(id) => graph@.id == id,
                    None => is_random_variant(graph@.id.bits),
                }),
            },
    {
        let name = match self.name {
            Some(name) => name,
            None => {
                return Err(ModelError::model(String::from_str("Graph name is required")));
            },
        };
        let id = match self.id {
            Some(id) => id,
            None => Uuid::new_v4(),
        };
        Ok(Graph::empty(id, name))
    }
}

} // verus!
