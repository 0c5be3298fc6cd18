//! The node graph: ports, nodes, edges, the definitions they refer to and the
//! graph that holds them.

pub mod data_type;
pub mod data_type_registry;
pub mod edge;
pub mod edge_builder;
pub mod graph;
pub mod graph_builder;
pub mod node;
pub mod node_builder;
pub mod node_definition;
pub mod node_definition_registry;
pub mod port;
pub mod port_builder;

pub use data_type::{DataType, DataTypeInfo};
pub use data_type_registry::DataTypeRegistry;
pub use edge::Edge;
pub use edge_builder::EdgeBuilder;
pub use graph::Graph;
pub use graph_builder::GraphBuilder;
pub use node::Node;
pub use node_builder::NodeBuilder;
pub use node_definition::{NodeDefinition, NodeDefinitionInfo};
pub use node_definition_registry::NodeDefinitionRegistry;
pub use port::Port;
pub use port_builder::PortBuilder;
