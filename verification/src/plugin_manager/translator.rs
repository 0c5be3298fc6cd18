//! Translation of what a module reports into the canonical records.
//!
//! Every field is copied as it stands: nothing is checked or rejected here.

use crate::proto;
use crate::wit;
use vstd::prelude::*;

verus! {

/// The canonical direction for a direction that a module reported.
pub open spec fn direction_to_proto(direction: wit::Direction) -> proto::Direction {
    match direction {
        wit::Direction::Input => proto::Direction::Input,
        wit::Direction::Output => proto::Direction::Output,
    }
}

/// The canonical port for a port that a module reported.
pub open spec fn port_to_proto(port: wit::PortSpecView) -> proto::PortSpecView {
    proto::PortSpecView {
        id: port.id,
        name: port.name,
        direction: direction_to_proto(port.direction),
        data_type_id: port.data_type_id,
    }
}

/// The canonical type for a type that a module reported.
pub open spec fn type_to_proto(info: wit::TypeInfoView) -> proto::TypeDefinitionView {
    proto::TypeDefinitionView {
        id: info.id,
        name: info.name,
        description: info.description,
        version: info.version,
    }
}

/// The canonical node for a node that a module reported: its ports are
/// translated one by one, in their order.
pub open spec fn node_to_proto(info: wit::NodeInfoView) -> proto::NodeDefinitionView {
    proto::NodeDefinitionView {
        id: info.id,
        name: info.name,
        description: info.description,
        version: info.version,
        input_ports: info.input_ports.map_values(|port: wit::PortSpecView| port_to_proto(port)),
        output_ports: info.output_ports.map_values(|port: wit::PortSpecView| port_to_proto(port)),
    }
}

/// Translates a data type that a module reported.
pub fn wit_type_to_proto(wit: wit::TypeInfo) -> (definition: proto::TypeDefinition)
    ensures
        definition@ == type_to_proto(wit@),
{
    proto::TypeDefinition {
        id: wit.id,
        name: wit.name,
        description: wit.description,
        version: wit.version,
    }
}

/// Translates a direction that a module reported.
pub fn wit_direction_to_proto(wit: wit::Direction) -> (direction: proto::Direction)
    ensures
        direction == direction_to_proto(wit),
{
    match wit {
        wit::Direction::Input => proto::Direction::Input,
        wit::Direction::Output => proto::Direction::Output,
    }
}

/// Translates a port that a module reported.
pub fn wit_port_to_proto(wit: wit::PortSpec) -> (port: proto::PortSpec)
    ensures
        port@ == port_to_proto(wit@),
{
    proto::PortSpec {
        id: wit.id,
        name: wit.name,
        direction: wit_direction_to_proto(wit.direction),
        data_type_id: wit.data_type_id,
    }
}

/// Translates a list of ports, keeping their order.
fn wit_ports_to_proto(ports: Vec<wit::PortSpec>) -> (translated: Vec<proto::PortSpec>)
    ensures
        proto::port_spec_views(translated@) == wit::port_spec_views(ports@).map_values(
            |port: wit::PortSpecView| port_to_proto(port),
        ),
{
    let mut translated: Vec<proto::PortSpec> = Vec::new();
    for port in iter: ports.into_iter()
        invariant
            iter.seq() == ports@,
            translated@.len() == iter.index(),
            forall|k: int|
                0 <= k < iter.index() ==> (#[trigger] translated@[k])@ == port_to_proto(
                    ports@[k]@,
                ),
    {
        translated.push(wit_port_to_proto(port));
    }
    assert(proto::port_spec_views(translated@) =~= wit::port_spec_views(ports@).map_values(
        |port: wit::PortSpecView| port_to_proto(port),
    ));
    translated
}

/// Translates a node that a module reported, with all its ports.
pub fn wit_node_to_proto(wit: wit::NodeInfo) -> (definition: proto::NodeDefinition)
    ensures
        definition@ == node_to_proto(wit@),
        definition.input_ports@.len() == wit.input_ports@.len(),
        definition.output_ports@.len() == wit.output_ports@.len(),
{
    let definition = proto::NodeDefinition {
        id: wit.id,
        name: wit.name,
        description: wit.description,
        version: wit.version,
        input_ports: wit_ports_to_proto(wit.input_ports),
        output_ports: wit_ports_to_proto(wit.output_ports),
    };
    assert(proto::port_spec_views(definition.input_ports@).len() == definition.input_ports@.len());
    assert(proto::port_spec_views(definition.output_ports@).len()
        == definition.output_ports@.len());
    definition
}

/// The direction that a module reports for a canonical direction: the way
/// back from [`direction_to_proto`].
pub open spec fn direction_from_proto(direction: proto::Direction) -> wit::Direction {
    match direction {
        proto::Direction::Input => wit::Direction::Input,
        proto::Direction::Output => wit::Direction::Output,
    }
}

/// The two directions that a module can report and the two canonical
/// directions correspond one to one: `Input` to `Input`, `Output` to
/// `Output`. Going there and back, from either side, gives the direction one
/// started with, so different directions stay different and each canonical
/// direction is reached.
pub proof fn lemma_directions_correspond()
    ensures
        direction_to_proto(wit::Direction::Input) == proto::Direction::Input,
        direction_to_proto(wit::Direction::Output) == proto::Direction::Output,
        forall|reported: wit::Direction|
            direction_from_proto(#[trigger] direction_to_proto(reported)) == reported,
        forall|direction: proto::Direction|
            direction_to_proto(#[trigger] direction_from_proto(direction)) == direction,
        forall|a: wit::Direction, b: wit::Direction|
            #[trigger] direction_to_proto(a) == #[trigger] direction_to_proto(b) ==> a == b,
{
}

/// Translating a node keeps everything that the module reported: the four
/// texts, the number of input ports and of output ports, and for each port,
/// at its place, the identifier, the name, the data type and the direction.
pub proof fn lemma_node_translation_keeps_all(info: wit::NodeInfoView)
    ensures
        node_to_proto(info).id == info.id,
        node_to_proto(info).name == info.name,
        node_to_proto(info).description == info.description,
        node_to_proto(info).version == info.version,
        node_to_proto(info).input_ports.len() == info.input_ports.len(),
        node_to_proto(info).output_ports.len() == info.output_ports.len(),
        forall|i: int|
            0 <= i < info.input_ports.len() ==> {
                let given = #[trigger] info.input_ports[i];
                let kept = node_to_proto(info).input_ports[i];
                kept.id == given.id && kept.name == given.name && kept.data_type_id
                    == given.data_type_id && (kept.direction == proto::Direction::Input
                    <==> given.direction == wit::Direction::Input)
            },
        forall|i: int|
            0 <= i < info.output_ports.len() ==> {
                let given = #[trigger] info.output_ports[i];
                let kept = node_to_proto(info).output_ports[i];
                kept.id == given.id && kept.name == given.name && kept.data_type_id
                    == given.data_type_id && (kept.direction == proto::Direction::Input
                    <==> given.direction == wit::Direction::Input)
            },
{
}

} // verus!
