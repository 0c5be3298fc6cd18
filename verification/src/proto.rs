//! The canonical records in which the host hands on what modules declared,
//! whatever form a module reported it in.

use vstd::prelude::*;

verus! {

/// Which way data flows through a port.
#[derive(Clone, Copy, Debug, PartialEq, Eq, Structural)]
pub enum Direction {
    Input,
    Output,
}

/// A data type, as the registry holds it.
#[derive(Debug)]
pub struct TypeDefinition {
    pub id: String,
    pub name: String,
    pub description: String,
    pub version: String,
}

/// A port of a node, as the registry holds it.
#[derive(Debug)]
pub struct PortSpec {
    pub id: String,
    pub name: String,
    pub direction: Direction,
    pub data_type_id: String,
}

/// A node, as the registry holds it.
#[derive(Debug)]
pub struct NodeDefinition {
    pub id: String,
    pub name: String,
    pub description: String,
    pub version: String,
    pub input_ports: Vec<PortSpec>,
    pub output_ports: Vec<PortSpec>,
}

/// The mathematical value of a [`TypeDefinition`].
pub struct TypeDefinitionView {
    pub id: Seq<char>,
    pub name: Seq<char>,
    pub description: Seq<char>,
    pub version: Seq<char>,
}

/// The mathematical value of a [`PortSpec`].
pub struct PortSpecView {
    pub id: Seq<char>,
    pub name: Seq<char>,
    pub direction: Direction,
    pub data_type_id: Seq<char>,
}

/// The mathematical value of a [`NodeDefinition`].
pub struct NodeDefinitionView {
    pub id: Seq<char>,
    pub name: Seq<char>,
    pub description: Seq<char>,
    pub version: Seq<char>,
    pub input_ports: Seq<PortSpecView>,
    pub output_ports: Seq<PortSpecView>,
}

impl View for TypeDefinition {
    type V = TypeDefinitionView;

    open spec fn view(&self) -> TypeDefinitionView {
        TypeDefinitionView {
            id: self.id@,
            name: self.name@,
            description: self.description@,
            version: self.version@,
        }
    }
}

impl View for PortSpec {
    type V = PortSpecView;

    open spec fn view(&self) -> PortSpecView {
        PortSpecView {
            id: self.id@,
            name: self.name@,
            direction: self.direction,
            data_type_id: self.data_type_id@,
        }
    }
}

/// The values of a sequence of ports, in the same order.
pub open spec fn port_spec_views(ports: Seq<PortSpec>) -> Seq<PortSpecView> {
    ports.map_values(|port: PortSpec| port@)
}

impl View for NodeDefinition {
    type V = NodeDefinitionView;

    open spec fn view(&self) -> NodeDefinitionView {
        NodeDefinitionView {
            id: self.id@,
            name: self.name@,
            description: self.description@,
            version: self.version@,
            input_ports: port_spec_views(self.input_ports@),
            output_ports: port_spec_views(self.output_ports@),
        }
    }
}

impl Clone for TypeDefinition {
    fn clone(&self) -> (copy: Self)
        ensures
            copy@ == self@,
    {
        TypeDefinition {
            id: self.id.clone(),
            name: self.name.clone(),
            description: self.description.clone(),
            version: self.version.clone(),
        }
    }
}

impl Clone for PortSpec {
    fn clone(&self) -> (copy: Self)
        ensures
            copy@ == self@,
    {
        PortSpec {
            id: self.id.clone(),
            name: self.name.clone(),
            direction: self.direction,
            data_type_id: self.data_type_id.clone(),
        }
    }
}

/// Copies a list of ports.
fn clone_port_specs(ports: &Vec<PortSpec>) -> (copy: Vec<PortSpec>)
    ensures
        port_spec_views(copy@) == port_spec_views(ports@),
{
    let mut copy: Vec<PortSpec> = Vec::new();
    let mut i: usize = 0;
    while i < ports.len()
        invariant
            i <= ports.len(),
            copy@.len() == i,
            forall|k: int| 0 <= k < i ==> (#[trigger] copy@[k])@ == ports@[k]@,
        decreases ports.len() - i,
    {
        copy.push(ports[i].clone());
        i += 1;
    }
    assert(port_spec_views(copy@) =~= port_spec_views(ports@));
    copy
}

impl Clone for NodeDefinition {
    fn clone(&self) -> (copy: Self)
        ensures
            copy@ == self@,
    {
        NodeDefinition {
            id: self.id.clone(),
            name: self.name.clone(),
            description: self.description.clone(),
            version: self.version.clone(),
            input_ports: clone_port_specs(&self.input_ports),
            output_ports: clone_port_specs(&self.output_ports),
        }
    }
}

} // verus!
