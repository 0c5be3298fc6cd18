//! Graphs: nodes and the edges that connect their ports.

use crate::model::error::{ModelError, ModelErrorView};
use crate::model::graph::edge::{edge_views, Edge, EdgeView};
use crate::model::graph::edge_builder::EdgeBuilder;
use crate::model::graph::node::{node_views, Node, NodeView};
use crate::model::graph::node_builder::NodeBuilder;
use crate::model::graph::node_definition::{NodeDefinitionInfo, NodeDefinitionView};
use crate::model::graph::node_definition_registry::{definition_not_found, NodeDefinitionRegistry};
use crate::model::graph::port::{contains_port, has_port};
use crate::model::ident::{is_random_variant, uuid_text, Uuid};
use vstd::prelude::*;
use vstd::string::StringExecFns;

verus! {

/// A named graph of nodes and edges.
#[derive(Debug)]
pub struct Graph {
    pub(crate) id: Uuid,
    pub(crate) name: String,
    pub(crate) nodes: Vec<Node>,
    pub(crate) edges: Vec<Edge>,
}

/// The mathematical value of a [`Graph`]: nodes and edges in the order in
/// which they were added.
pub struct GraphView {
    pub id: Uuid,
    pub name: Seq<char>,
    pub nodes: Seq<NodeView>,
    pub edges: Seq<EdgeView>,
}

impl View for Graph {
    type V = GraphView;

    closed spec fn view(&self) -> GraphView {
        GraphView {
            id: self.id,
            name: self.name@,
            nodes: node_views(self.nodes@),
            edges: edge_views(self.edges@),
        }
    }
}

/// Whether one of `nodes` has the identifier `id`.
pub open spec fn has_node(nodes: Seq<NodeView>, id: Uuid) -> bool {
    exists|i: int| 0 <= i < nodes.len() && (#[trigger] nodes[i]).id == id
}

/// Whether `index` is the place of the first of `nodes` with identifier `id`.
pub open spec fn is_first_node(nodes: Seq<NodeView>, id: Uuid, index: int) -> bool {
    &&& 0 <= index < nodes.len()
    &&& nodes[index].id == id
    &&& forall|j: int| 0 <= j < index ==> (#[trigger] nodes[j]).id != id
}

/// The first of `nodes` with identifier `id`, where there is one.
pub open spec fn first_node(nodes: Seq<NodeView>, id: Uuid) -> NodeView {
    nodes[choose|index: int| is_first_node(nodes, id, index)]
}

/// The error with which a request for a part of the graph is refused.
pub open spec fn refusal(message: Seq<char>) -> ModelErrorView {
    ModelErrorView::ModelError { message }
}

/// Why a port of a node cannot take part in an edge, if it cannot: the
/// node's definition is not registered, asking it for its ports fails, or
/// none of its ports has the identifier. With `outputs` the port is looked
/// for among the output ports, as the source of an edge; without it among
/// the input ports, as the target.
pub open spec fn port_rejection(
    definitions: Map<Uuid, NodeDefinitionView>,
    node: NodeView,
    outputs: bool,
    port_id: Uuid,
) -> Option<ModelErrorView> {
    if !definitions.contains_key(node.definition_id) {
        Some(definition_not_found(node.definition_id))
    } else {
        let definition = definitions[node.definition_id];
        let ports = if outputs {
            definition.output_ports
        } else {
            definition.input_ports
        };
        match ports {
            Err(error) => Some(error),
            Ok(ports) => if has_port(ports, port_id) {
                None
            } else {
                Some(
                    refusal(
                        (if outputs {
                            "Source port "@
                        } else {
                            "Target port "@
                        }) + uuid_text(port_id.bits) + " not found on node "@ + uuid_text(
                            node.id.bits,
                        ),
                    ),
                )
            },
        }
    }
}

/// Why an edge cannot be added, if it cannot. The checks run in this order:
/// the source node is in the graph; the target node is; the source port is
/// an output port of the source node's definition; the target port is an
/// input port of the target node's definition. Where several nodes share an
/// identifier the first one counts.
pub open spec fn edge_rejection(
    nodes: Seq<NodeView>,
    definitions: Map<Uuid, NodeDefinitionView>,
    source_node_id: Uuid,
    source_port_id: Uuid,
    target_node_id: Uuid,
    target_port_id: Uuid,
) -> Option<ModelErrorView> {
    if !has_node(nodes, source_node_id) {
        Some(refusal("Source node "@ + uuid_text(source_node_id.bits) + " not found in graph"@))
    } else if !has_node(nodes, target_node_id) {
        Some(refusal("Target node "@ + uuid_text(target_node_id.bits) + " not found in graph"@))
    } else {
        match port_rejection(definitions, first_node(nodes, source_node_id), true, source_port_id) {
            Some(error) => Some(error),
            None => port_rejection(
                definitions,
                first_node(nodes, target_node_id),
                false,
                target_port_id,
            ),
        }
    }
}

/// Any two places that are both the first with an identifier are one place.
proof fn lemma_first_node_is_unique(nodes: Seq<NodeView>, id: Uuid, index: int)
    requires
        is_first_node(nodes, id, index),
    ensures
        has_node(nodes, id),
        first_node(nodes, id) == nodes[index],
{
    let chosen = choose|other: int| is_first_node(nodes, id, other);
    if chosen < index {
        assert(nodes[chosen].id != id);
    }
    if index < chosen {
        assert(nodes[index].id != id);
    }
}

impl Graph {
    /// The graph with the given identifier and name and nothing in it.
    pub(crate) fn empty(id: Uuid, name: String) -> (graph: Graph)
        ensures
            graph@ == (GraphView {
                id,
                name: name@,
                nodes: Seq::<NodeView>::empty(),
                edges: Seq::<EdgeView>::empty(),
            }),
    {
        let graph = Graph { id, name, nodes: Vec::new(), edges: Vec::new() };
        assert(graph@.nodes =~= Seq::<NodeView>::empty());
        assert(graph@.edges =~= Seq::<EdgeView>::empty());
        graph
    }

    /// The identifier of the graph.
    pub fn id(&self) -> (id: Uuid)
        ensures
            id == self@.id,
    {
        self.id
    }

    /// The name of the graph.
    pub fn name(&self) -> (name: &str)
        ensures
            name@ == self@.name,
    {
        self.name.as_str()
    }

    /// The nodes of the graph, in the order in which they were added.
    pub fn nodes(&self) -> (nodes: &[Node])
        ensures
            node_views(nodes@) == self@.nodes,
    {
        self.nodes.as_slice()
    }

    /// The edges of the graph, in the order in which they were added.
    pub fn edges(&self) -> (edges: &[Edge])
        ensures
            edge_views(edges@) == self@.edges,
    {
        self.edges.as_slice()
    }

    /// The place of the first node with identifier `id`, if there is one.
    fn find_node(&self, id: Uuid) -> (found: Option<usize>)
        ensures
            match found {
                Some(index) => is_first_node(self@.nodes, id, index as int) && index
                    < self.nodes@.len(),
                None => !has_node(self@.nodes, id),
            },
    {
        let mut i: usize = 0;
        while i < self.nodes.len()
            invariant
                i <= self.nodes.len(),
                self@.nodes == node_views(self.nodes@),
                forall|j: int| 0 <= j < i ==> (#[trigger] self@.nodes[j]).id != id,
            decreases self.nodes.len() - i,
        {
            if self.nodes[i].id() == id {
                return Some(i);
            }
            i += 1;
        }
        None
    }

    /// Adds a node that is an instance of a registered definition, and
    /// returns its identifier: the one given, or one drawn at random. If the
    /// definition is not registered the graph stays as it is.
    pub fn add_node(
        &mut self,
        registry: &NodeDefinitionRegistry,
        id: Option<Uuid>,
        name: &str,
        definition_id: Uuid,
    ) -> (result: Result<Uuid, ModelError>)
        ensures
            match result {
                Ok(node_id) => registry.definitions().contains_key(definition_id) && final(self)@
                    == (GraphView {
                    nodes: old(self)@.nodes.push(
                        NodeView { id: node_id, name: name@, definition_id },
                    ),
                    ..old(self)@
                }) && (match id {
                    Some(given) => node_id == given,
                    None => is_random_variant(node_id.bits),
                }),
                Err(error) => !registry.definitions().contains_key(definition_id) && error@
                    == definition_not_found(definition_id) && final(self)@ == old(self)@,
            },
    {
        match registry.get(&definition_id) {
            Ok(_) => {},
            Err(error) => {
                return Err(error);
            },
        }
        let mut builder = NodeBuilder::default();
        if let Some(id) = id {
            builder = builder.with_id(id);
        }
        let node = match builder.with_name(name).with_definition_id(definition_id).build() {
            Ok(node) => node,
            Err(error) => {
                return Err(error);
            },
        };
        let node_id = node.id();
        self.nodes.push(node);
        assert(self@.nodes =~= old(self)@.nodes.push(
            NodeView { id: node_id, name: name@, definition_id },
        ));
        Ok(node_id)
    }

    /// Adds an edge from an output port of one node to an input port of
    /// another, and returns its identifier: the one given, or one drawn at
    /// random. The edge is refused, and the graph stays as it is, exactly
    /// when [`edge_rejection`] names an error.
    pub fn add_edge(
        &mut self,
        registry: &NodeDefinitionRegistry,
        id: Option<Uuid>,
        source_node_id: Uuid,
        source_port_id: Uuid,
        target_node_id: Uuid,
        target_port_id: Uuid,
    ) -> (result: Result<Uuid, ModelError>)
        ensures
            match result {
                Ok(edge_id) => edge_rejection(
                    old(self)@.nodes,
                    registry.definitions(),
                    source_node_id,
                    source_port_id,
                    target_node_id,
                    target_port_id,
                ) is None && final(self)@ == (GraphView {
                    edges: old(self)@.edges.push(
                        EdgeView {
                            id: edge_id,
                            source_node_id,
                            source_port_id,
                            target_node_id,
                            target_port_id,
                        },
                    ),
                    ..old(self)@
                }) && (match id {
                    Some(given) => edge_id == given,
                    None => is_random_variant(edge_id.bits),
                }),
                Err(error) => edge_rejection(
                    old(self)@.nodes,
                    registry.definitions(),
                    source_node_id,
                    source_port_id,
                    target_node_id,
                    target_port_id,
                ) == Some(error@) && final(self)@ == old(self)@,
            },
    {
        let source_index = match self.find_node(source_node_id) {
            Some(index) => index,
            None => {
                let text = source_node_id.to_string();
                return Err(
                    ModelError::model(
                        String::from_str("Source node ").concat(text.as_str()).concat(
                            " not found in graph",
                        ),
                    ),
                );
            },
        };
        let target_index = match self.find_node(target_node_id) {
            Some(index) => index,
            None => {
                let text = target_node_id.to_string();
                return Err(
                    ModelError::model(
                        String::from_str("Target node ").concat(text.as_str()).concat(
                            " not found in graph",
                        ),
                    ),
                );
            },
        };
        proof {
            lemma_first_node_is_unique(self@.nodes, source_node_id, source_index as int);
            lemma_first_node_is_unique(self@.nodes, target_node_id, target_index as int);
        }
        let source_definition = match registry.get(&self.nodes[source_index].definition_id()) {
            Ok(definition) => definition,
            Err(error) => {
                return Err(error);
            },
        };
        let source_ports = match source_definition.output_port_specs() {
            Ok(ports) => ports,
            Err(error) => {
                return Err(error);
            },
        };
        if !contains_port(&source_ports, source_port_id) {
            let port_text = source_port_id.to_string();
            let node_text = source_node_id.to_string();
            return Err(
                ModelError::model(
                    String::from_str("Source port ").concat(port_text.as_str()).concat(
                        " not found on node ",
                    ).concat(node_text.as_str()),
                ),
            );
        }
        let target_definition = match registry.get(&self.nodes[target_index].definition_id()) {
            Ok(definition) => definition,
            Err(error) => {
                return Err(error);
            },
        };
        let target_ports = match target_definition.input_port_specs() {
            Ok(ports) => ports,
            Err(error) => {
                return Err(error);
            },
        };
        if !contains_port(&target_ports, target_port_id) {
            let port_text = target_port_id.to_string();
            let node_text = target_node_id.to_string();
            return Err(
                ModelError::model(
                    String::from_str("Target port ").concat(port_text.as_str()).concat(
                        " not found on node ",
                    ).concat(node_text.as_str()),
                ),
            );
        }
        let mut builder = EdgeBuilder::default();
        if let Some(id) = id {
            builder = builder.with_id(id);
        }
        let edge = match builder.with_source_node_id(source_node_id).with_source_port_id(
            source_port_id,
        ).with_target_node_id(target_node_id).with_target_port_id(target_port_id).build() {
            Ok(edge) => edge,
            Err(error) => {
                return Err(error);
            },
        };
        let edge_id = edge.id();
        self.edges.push(edge);
        assert(self@.edges =~= old(self)@.edges.push(
            EdgeView {
                id: edge_id,
                source_node_id,
                source_port_id,
                target_node_id,
                target_port_id,
            },
        ));
        Ok(edge_id)
    }
}

} // verus!
