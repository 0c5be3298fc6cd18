//! Step-by-step construction of nodes.

use crate::model::error::{ModelError, ModelErrorView};
use crate::model::graph::node::Node;
use crate::model::ident::{is_random_variant, Uuid};
use vstd::prelude::*;
use vstd::string::StringExecFns;

verus! {

/// Collects the parts of a node.
#[derive(Debug)]
pub struct NodeBuilder {
    id: Option<Uuid>,
    name: Option<String>,
    definition_id: Option<Uuid>,
}

/// The mathematical value of a [`NodeBuilder`]: the parts given so far.
pub struct NodeBuilderView {
    pub id: Option<Uuid>,
    pub name: Option<Seq<char>>,
    pub definition_id: Option<Uuid>,
}

impl View for NodeBuilder {
    type V = NodeBuilderView;

    closed spec fn view(&self) -> NodeBuilderView {
        NodeBuilderView {
            id: self.id,
            name: match self.name {
                Some(name) => Some(name@),
                None => None,
            },
            definition_id: self.definition_id,
        }
    }
}

impl Default for NodeBuilder {
    /// The builder to which nothing was given yet.
    fn default() -> (builder: Self)
        ensures
            builder@ == (NodeBuilderView { id: None, name: None, definition_id: None }),
    {
        NodeBuilder { id: None, name: None, definition_id: None }
    }
}

impl NodeBuilder {
    /// Sets the identifier of the node.
    pub fn with_id(self, id: Uuid) -> (builder: Self)
        ensures
            builder@ == (NodeBuilderView { id: Some(id), ..self@ }),
    {
        let mut builder = self;
        builder.id = Some(id);
        builder
    }

    /// Sets the name of the node.
    pub fn with_name(self, name: &str) -> (builder: Self)
        ensures
            builder@ == (NodeBuilderView { name: Some(name@), ..self@ }),
    {
        let mut builder = self;
        builder.name = Some(String::from_str(name));
        builder
    }

    /// Sets the definition that the node is an instance of.
    pub fn with_definition_id(self, definition_id: Uuid) -> (builder: Self)
        ensures
            builder@ == (NodeBuilderView { definition_id: Some(definition_id), ..self@ }),
    {
        let mut builder = self;
        builder.definition_id = Some(definition_id);
        builder
    }

    /// Builds the node. A name and a definition are required, and the name is
    /// looked at first; an identifier that was not given is drawn at random.
    pub fn build(self) -> (result: Result<Node, ModelError>)
        ensures
            match (self@.name, self@.definition_id) {
                (None, _) => result matches Err(error) && error@ == (ModelErrorView::ModelError {
                    message: "Node name is required"@,
                }),
                (Some(name), None) => result matches Err(error) && error@ == (
                ModelErrorView::ModelError { message: "Node definition id is required"@ }),
                (Some(name), Some(definition_id)) => result matches Ok(node) && node@.name == name
                    && node@.definition_id == definition_id && (match self@.id {
                    Some(id) => node@.id == id,
                    None => is_random_variant(node@.id.bits),
                }),
            },
    {
        let id = match self.id {
            Some(id) => id,
            None => Uuid::new_v4(),
        };
        let name = match self.name {
            Some(name) => name,
            None => {
                return Err(ModelError::model(String::from_str("Node name is required")));
            },
        };
        let definition_id = match self.definition_id {
            Some(id) => id,
            None => {
                return Err(ModelError::model(String::from_str("Node definition id is required")));
            },
        };
        Ok(Node::from_parts(id, name, definition_id))
    }
}

} // verus!
