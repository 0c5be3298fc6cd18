//! What the built-in nodes report about themselves.

use crate::model::error::{ModelError, ModelErrorView};
use crate::model::graph::node_definition::{NodeDefinitionInfo, NodeDefinitionView};
use crate::model::graph::port::{port_views, Port, PortView};
use crate::model::ident::uuid_text;
use crate::model::version::version_text;
use crate::nodes::end::EndNode;
use crate::nodes::start::StartNode;
use crate::wit::{
    node_info_views,
    port_spec_views,
    Direction,
    NodeInfo,
    NodeInfoView,
    PortSpec,
    PortSpecView,
};
use vstd::prelude::*;
use vstd::string::StringExecFns;

verus! {

/// The record that reports a port on the given side of a node: its
/// identifiers as text, its name as it is.
pub open spec fn port_record(port: PortView, direction: Direction) -> PortSpecView {
    PortSpecView {
        id: uuid_text(port.id.bits),
        name: port.name,
        direction,
        data_type_id: uuid_text(port.data_type_id.bits),
    }
}

/// The records that report the ports on one side of a node. A definition
/// that cannot say what its ports are is reported as having none.
pub open spec fn port_records(ports: Result<Seq<PortView>, ModelErrorView>, direction: Direction)
    -> Seq<PortSpecView> {
    match ports {
        Ok(ports) => ports.map_values(|port: PortView| port_record(port, direction)),
        Err(_) => Seq::empty(),
    }
}

/// The record that reports a node definition.
pub open spec fn node_record(info: NodeDefinitionView) -> NodeInfoView {
    NodeInfoView {
        id: uuid_text(info.definition_id.bits),
        name: info.name,
        description: info.description,
        version: version_text(info.model_version),
        input_ports: port_records(info.input_ports, Direction::Input),
        output_ports: port_records(info.output_ports, Direction::Output),
    }
}

/// Reports the ports on one side of a node.
fn describe_ports(ports: Result<Vec<Port>, ModelError>, direction: Direction) -> (records: Vec<
    PortSpec,
>)
    ensures
        port_spec_views(records@) == port_records(
            crate::model::graph::node_definition::ports_outcome(ports),
            direction,
        ),
{
    let mut records: Vec<PortSpec> = Vec::new();
    match ports {
        Ok(ports) => {
            let mut i: usize = 0;
            while i < ports.len()
                invariant
                    i <= ports.len(),
                    records@.len() == i,
                    forall|k: int|
                        0 <= k < i ==> (#[trigger] records@[k])@ == port_record(
                            ports@[k]@,
                            direction,
                        ),
                decreases ports.len() - i,
            {
                let port = &ports[i];
                records.push(
                    PortSpec {
                        id: port.id().to_string(),
                        name: String::from_str(port.name()),
                        direction,
                        data_type_id: port.data_type_id().to_string(),
                    },
                );
                i += 1;
            }
            assert(port_spec_views(records@) =~= port_views(ports@).map_values(
                |port: PortView| port_record(port, direction),
            ));
        },
        Err(_) => {
            assert(port_spec_views(records@) =~= Seq::<PortSpecView>::empty());
        },
    }
    records
}

/// Reports a node definition.
pub fn describe_node<T: NodeDefinitionInfo>(definition: &T) -> (record: NodeInfo)
    ensures
        record@ == node_record(definition.info()),
{
    NodeInfo {
        id: definition.definition_id().to_string(),
        name: String::from_str(definition.name()),
        description: String::from_str(definition.description()),
        version: definition.model_version().to_string(),
        input_ports: describe_ports(definition.input_port_specs(), Direction::Input),
        output_ports: describe_ports(definition.output_port_specs(), Direction::Output),
    }
}

/// The records of the built-in nodes: the start node, then the end node.
pub fn list_nodes() -> (records: Vec<NodeInfo>)
    ensures
        node_info_views(records@) == seq![
            node_record(StartNode.info()),
            node_record(EndNode.info()),
        ],
{
    let records = vec![describe_node(&StartNode), describe_node(&EndNode)];
    assert(node_info_views(records@) =~= seq![
        node_record(StartNode.info()),
        node_record(EndNode.info()),
    ]);
    records
}

} // verus!
