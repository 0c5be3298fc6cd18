//! The end node: where a workflow stops.

use crate::model::error::ModelError;
use crate::model::graph::data_type::DataTypeInfo;
use crate::model::graph::node_definition::{
    NodeDefinition,
    NodeDefinitionInfo,
    NodeDefinitionView,
};
use crate::model::graph::port::{port_views, Port, PortView};
use crate::model::graph::port_builder::PortBuilder;
use crate::model::ident::Uuid;
use crate::model::version::Version;
use crate::nodes::error::NodeError;
use crate::types::signal::{built_in_version, SignalType, SIGNAL_TYPE_ID};
use vstd::prelude::*;

verus! {

/// The identifier of the end node, `e7a20e26-27ce-4d49-9759-50db835d46e6`.
pub const END_NODE_ID: u128 = 0xe7a20e26_27ce_4d49_9759_50db835d46e6;

/// The identifier of its input port,
/// `f3500667-e80c-4483-b518-a3c71305d8ee`.
pub const END_INPUT_PORT_ID: u128 = 0xf3500667_e80c_4483_b518_a3c71305d8ee;

/// The name of the end node.
pub const END_NAME: &'static str = "End";

/// What the end node does.
pub const END_DESCRIPTION: &'static str = "Terminates workflow execution";

/// The node that ends a workflow: one input that takes a signal, and no
/// outputs.
#[derive(Clone, Copy, Debug)]
pub struct EndNode;

impl NodeDefinitionInfo for EndNode {
    open spec fn info(&self) -> NodeDefinitionView {
        NodeDefinitionView {
            definition_id: Uuid { bits: END_NODE_ID },
            name: END_NAME@,
            description: END_DESCRIPTION@,
            model_version: built_in_version(),
            input_ports: Ok(
                seq![
                    PortView {
                        id: Uuid { bits: END_INPUT_PORT_ID },
                        name: "signal"@,
                        data_type_id: Uuid { bits: SIGNAL_TYPE_ID },
                    },
                ],
            ),
            output_ports: Ok(Seq::empty()),
        }
    }

    fn definition_id(&self) -> (id: Uuid) {
        Uuid::from_u128(END_NODE_ID)
    }

    fn name(&self) -> (name: &str) {
        END_NAME
    }

    fn description(&self) -> (description: &str) {
        END_DESCRIPTION
    }

    fn model_version(&self) -> (version: Version) {
        Version::new(0, 1, 0)
    }

    fn input_port_specs(&self) -> (outcome: Result<Vec<Port>, ModelError>) {
        let signal_type = SignalType;
        let built = PortBuilder::default().with_id(Uuid::from_u128(END_INPUT_PORT_ID)).with_name(
            "signal",
        ).with_data_type_id(signal_type.type_id()).build();
        let port = match built {
            Ok(port) => port,
            Err(error) => {
                return Err(error);
            },
        };
        let ports = vec![port];
        assert(port_views(ports@) =~= seq![port@]);
        Ok(ports)
    }

    fn output_port_specs(&self) -> (outcome: Result<Vec<Port>, ModelError>) {
        let ports: Vec<Port> = Vec::new();
        assert(port_views(ports@) =~= Seq::<PortView>::empty());
        Ok(ports)
    }
}

impl NodeDefinition for EndNode {
    type Error = NodeError;

    /// Ending takes its input and gives nothing.
    fn execute(&self, inputs: Vec<u8>) -> (result: Result<Vec<u8>, NodeError>)
        ensures
            result matches Ok(outputs) && outputs@.len() == 0,
    {
        Ok(Vec::new())
    }
}

} // verus!
