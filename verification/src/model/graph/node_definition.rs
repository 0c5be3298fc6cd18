//! Node definitions: the kinds of node that a graph can hold.

use crate::model::error::{ModelError, ModelErrorView};
use crate::model::graph::port::{port_views, Port, PortView};
use crate::model::ident::Uuid;
use crate::model::version::Version;
use vstd::prelude::*;

verus! {

/// What a node definition declares about itself. Each of the two port lists
/// is either the ports in their order or the error that asking for them
/// gives.
pub struct NodeDefinitionView {
    pub definition_id: Uuid,
    pub name: Seq<char>,
    pub description: Seq<char>,
    pub model_version: Version,
    pub input_ports: Result<Seq<PortView>, ModelErrorView>,
    pub output_ports: Result<Seq<PortView>, ModelErrorView>,
}

/// The value of what asking a definition for ports gives.
pub open spec fn ports_outcome(outcome: Result<Vec<Port>, ModelError>) -> Result<
    Seq<PortView>,
    ModelErrorView,
> {
    match outcome {
        Ok(ports) => Ok(port_views(ports@)),
        Err(error) => Err(error@),
    }
}

/// The description of a node definition, without the means to run it. Every
/// method reports one part of [`NodeDefinitionInfo::info`].
pub trait NodeDefinitionInfo {
    /// All that the definition declares about itself. An implementation
    /// that is to be verified says here what its methods return; one that
    /// leaves this as it stands claims nothing.
    open spec fn info(&self) -> NodeDefinitionView {
        arbitrary()
    }

    /// The identifier of the definition.
    fn definition_id(&self) -> (id: Uuid)
        ensures
            id == self.info().definition_id,
    ;

    /// The name of the definition, for people.
    fn name(&self) -> (name: &str)
        ensures
            name@ == self.info().name,
    ;

    /// What a node of this kind does.
    fn description(&self) -> (description: &str)
        ensures
            description@ == self.info().description,
    ;

    /// The version of the model that the definition was built against.
    fn model_version(&self) -> (version: Version)
        ensures
            version == self.info().model_version,
    ;

    /// The ports through which a node of this kind receives values.
    fn input_port_specs(&self) -> (outcome: Result<Vec<Port>, ModelError>)
        ensures
            ports_outcome(outcome) == self.info().input_ports,
    ;

    /// The ports through which a node of this kind hands values on.
    fn output_port_specs(&self) -> (outcome: Result<Vec<Port>, ModelError>)
        ensures
            ports_outcome(outcome) == self.info().output_ports,
    ;
}

/// A node definition that can be run.
pub trait NodeDefinition: NodeDefinitionInfo {
    /// What goes wrong when a node of this kind runs.
    type Error;

    /// Runs a node of this kind on its inputs, given and returned as bytes.
    fn execute(&self, inputs: Vec<u8>) -> Result<Vec<u8>, Self::Error>;
}

} // verus!
