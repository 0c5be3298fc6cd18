//! The records in which an extension module reports what it provides, as the
//! module's interface declares them.

use vstd::prelude::*;

verus! {

/// Which way data flows through a port, as a module reports it.
#[derive(Clone, Copy, Debug, PartialEq, Eq, Structural)]
pub enum Direction {
    Input,
    Output,
}

/// A data type that a module provides.
#[derive(Debug)]
pub struct TypeInfo {
    pub id: String,
    pub name: String,
    pub description: String,
    pub version: String,
}

/// A port of a node that a module provides.
#[derive(Debug)]
pub struct PortSpec {
    pub id: String,
    pub name: String,
    pub direction: Direction,
    pub data_type_id: String,
}

/// A node that a module provides.
#[derive(Debug)]
pub struct NodeInfo {
    pub id: String,
    pub name: String,
    pub description: String,
    pub version: String,
    pub input_ports: Vec<PortSpec>,
    pub output_ports: Vec<PortSpec>,
}

/// The mathematical value of a [`TypeInfo`].
pub struct TypeInfoView {
    pub id: Seq<char>,
    pub name: Seq<char>,
    pub description: Seq<char>,
    pub version: Seq<char>,
}

/// The mathematical value of a [`PortSpec`].
pub struct PortSpecView {
    pub id: Seq<char>,
    pub name: Seq<char>,
    pub direction: Direction,
    pub data_type_id: Seq<char>,
}

/// The mathematical value of a [`NodeInfo`].
pub struct NodeInfoView {
    pub id: Seq<char>,
    pub name: Seq<char>,
    pub description: Seq<char>,
    pub version: Seq<char>,
    pub input_ports: Seq<PortSpecView>,
    pub output_ports: Seq<PortSpecView>,
}

impl View for TypeInfo {
    type V = TypeInfoView;

    open spec fn view(&self) -> TypeInfoView {
        TypeInfoView {
            id: self.id@,
            name: self.name@,
            description: self.description@,
            version: self.version@,
        }
    }
}

impl View for PortSpec {
    type V = PortSpecView;

    open spec fn view(&self) -> PortSpecView {
        PortSpecView {
            id: self.id@,
            name: self.name@,
            direction: self.direction,
            data_type_id: self.data_type_id@,
        }
    }
}

/// The values of a sequence of ports, in the same order.
pub open spec fn port_spec_views(ports: Seq<PortSpec>) -> Seq<PortSpecView> {
    ports.map_values(|port: PortSpec| port@)
}

impl View for NodeInfo {
    type V = NodeInfoView;

    open spec fn view(&self) -> NodeInfoView {
        NodeInfoView {
            id: self.id@,
            name: self.name@,
            description: self.description@,
            version: self.version@,
            input_ports: port_spec_views(self.input_ports@),
            output_ports: port_spec_views(self.output_ports@),
        }
    }
}

/// The values of a sequence of type records, in the same order.
pub open spec fn type_info_views(types: Seq<TypeInfo>) -> Seq<TypeInfoView> {
    types.map_values(|info: TypeInfo| info@)
}

/// The values of a sequence of node records, in the same order.
pub open spec fn node_info_views(nodes: Seq<NodeInfo>) -> Seq<NodeInfoView> {
    nodes.map_values(|info: NodeInfo| info@)
}

} // verus!
