//! The start node: where a workflow begins.

use crate::model::error::ModelError;
use crate::model::graph::data_type::DataTypeInfo;
use crate::model::graph::node_definition::{
    NodeDefinition,
    NodeDefinitionInfo,
    NodeDefinitionView,
};
use crate::model::graph::port::{port_views, Port, PortView};
use crate::model::graph::port_builder::PortBuilder;
use crate::model::ident::Uuid;
use crate::model::version::Version;
use crate::nodes::error::NodeError;
use crate::types::signal::{built_in_version, SignalType, SIGNAL_TYPE_ID};
use vstd::prelude::*;

verus! {

/// The identifier of the start node, `40ebe0be-d2db-4eed-80f3-91267352ee42`.
pub const START_NODE_ID: u128 = 0x40ebe0be_d2db_4eed_80f3_91267352ee42;

/// The identifier of its output port,
/// `a7c33534-0b4c-4311-9891-2cbf609dbd12`.
pub const START_OUTPUT_PORT_ID: u128 = 0xa7c33534_0b4c_4311_9891_2cbf609dbd12;

/// The name of the start node.
pub const START_NAME: &'static str = "Start";

/// What the start node does.
pub const START_DESCRIPTION: &'static str = "Initiates workflow execution";

/// The node that starts a workflow: no inputs, and one output that hands
/// on a signal.
#[derive(Clone, Copy, Debug)]
pub struct StartNode;

impl NodeDefinitionInfo for StartNode {
    open spec fn info(&self) -> NodeDefinitionView {
        NodeDefinitionView {
            definition_id: Uuid { bits: START_NODE_ID },
            name: START_NAME@,
            description: START_DESCRIPTION@,
            model_version: built_in_version(),
            input_ports: Ok(Seq::empty()),
            output_ports: Ok(
                seq![
                    PortView {
                        id: Uuid { bits: START_OUTPUT_PORT_ID },
                        name: "signal"@,
                        data_type_id: Uuid { bits: SIGNAL_TYPE_ID },
                    },
                ],
            ),
        }
    }

    fn definition_id(&self) -> (id: Uuid) {
        Uuid::from_u128(START_NODE_ID)
    }

    fn name(&self) -> (name: &str) {
        START_NAME
    }

    fn description(&self) -> (description: &str) {
        START_DESCRIPTION
    }

    fn model_version(&self) -> (version: Version) {
        Version::new(0, 1, 0)
    }

    fn input_port_specs(&self) -> (outcome: Result<Vec<Port>, ModelError>) {
        let ports: Vec<Port> = Vec::new();
        assert(port_views(ports@) =~= Seq::<PortView>::empty());
        Ok(ports)
    }

    fn output_port_specs(&self) -> (outcome: Result<Vec<Port>, ModelError>) {
        let signal_type = SignalType;
        let built = PortBuilder::default().with_id(Uuid::from_u128(START_OUTPUT_PORT_ID)).with_name(
            "signal",
        ).with_data_type_id(signal_type.type_id()).build();
        let port = match built {
            Ok(port) => port,
            Err(error) => {
                return Err(error);
            },
        };
        let ports = vec![port];
        assert(port_views(ports@) =~= seq![port@]);
        Ok(ports)
    }
}

impl NodeDefinition for StartNode {
    type Error = NodeError;

    /// Starting takes nothing and gives nothing: the signal has no bytes.
    fn execute(&self, inputs: Vec<u8>) -> (result: Result<Vec<u8>, NodeError>)
        ensures
            result matches Ok(outputs) && outputs@.len() == 0,
    {
        Ok(Vec::new())
    }
}

} // verus!
