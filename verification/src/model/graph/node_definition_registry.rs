//! The node definitions that a model knows, by identifier.

use crate::model::error::{ModelError, ModelErrorView};
use crate::model::graph::node_definition::{ports_outcome, NodeDefinitionInfo, NodeDefinitionView};
use crate::model::graph::port::{clone_ports, Port};
use crate::model::ident::{uuid_text, Uuid};
use crate::model::version::Version;
use std::collections::HashMap;
use vstd::prelude::*;
use vstd::string::StringExecFns;

verus! {

/// What the registry keeps of a node definition: all that it declared about
/// itself when it was registered.
#[derive(Debug)]
pub struct RegisteredNodeDefinition {
    definition_id: Uuid,
    name: String,
    description: String,
    model_version: Version,
    input_ports: Result<Vec<Port>, ModelError>,
    output_ports: Result<Vec<Port>, ModelError>,
}

impl View for RegisteredNodeDefinition {
    type V = NodeDefinitionView;

    closed spec fn view(&self) -> NodeDefinitionView {
        NodeDefinitionView {
            definition_id: self.definition_id,
            name: self.name@,
            description: self.description@,
            model_version: self.model_version,
            input_ports: ports_outcome(self.input_ports),
            output_ports: ports_outcome(self.output_ports),
        }
    }
}

/// Copies what asking a definition for ports gave.
fn clone_ports_outcome(outcome: &Result<Vec<Port>, ModelError>) -> (copy: Result<
    Vec<Port>,
    ModelError,
>)
    ensures
        ports_outcome(copy) == ports_outcome(*outcome),
{
    match outcome {
        Ok(ports) => Ok(clone_ports(ports)),
        Err(error) => Err(error.clone()),
    }
}

impl NodeDefinitionInfo for RegisteredNodeDefinition {
    open spec fn info(&self) -> NodeDefinitionView {
        self@
    }

    fn definition_id(&self) -> (id: Uuid) {
        self.definition_id
    }

    fn name(&self) -> (name: &str) {
        self.name.as_str()
    }

    fn description(&self) -> (description: &str) {
        self.description.as_str()
    }

    fn model_version(&self) -> (version: Version) {
        self.model_version
    }

    fn input_port_specs(&self) -> (outcome: Result<Vec<Port>, ModelError>) {
        clone_ports_outcome(&self.input_ports)
    }

    fn output_port_specs(&self) -> (outcome: Result<Vec<Port>, ModelError>) {
        clone_ports_outcome(&self.output_ports)
    }
}

/// The text of the error for a definition that is not registered. The
/// message ends in a space.
pub open spec fn definition_not_found(definition_id: Uuid) -> ModelErrorView {
    ModelErrorView::ModelError {
        message: "Node definition not found: "@ + uuid_text(definition_id.bits) + " "@,
    }
}

/// The node definitions registered so far. A definition is kept under its
/// identifier, and the first one registered under an identifier stays.
pub struct NodeDefinitionRegistry {
    definitions: HashMap<u128, RegisteredNodeDefinition>,
}

impl NodeDefinitionRegistry {
    #[verifier::type_invariant]
    spec fn keyed_by_identifier(self) -> bool {
        forall|key: u128| #[trigger]
            self.definitions@.contains_key(key) ==> self.definitions@[key]@.definition_id.bits
                == key
    }

    /// What each registered identifier stands for.
    pub closed spec fn definitions(self) -> Map<Uuid, NodeDefinitionView> {
        Map::new(
            |id: Uuid| self.definitions@.contains_key(id.bits),
            |id: Uuid| self.definitions@[id.bits]@,
        )
    }

    /// The registry that holds nothing.
    pub fn new() -> (registry: Self)
        ensures
            registry.definitions() == Map::<Uuid, NodeDefinitionView>::empty(),
    {
        let registry = NodeDefinitionRegistry { definitions: HashMap::new() };
        assert(registry.definitions() =~= Map::<Uuid, NodeDefinitionView>::empty());
        registry
    }

    /// Registers a node definition under its identifier, unless one is
    /// already registered under it. Never fails.
    pub fn register<T>(&mut self, definition: T) -> (result: Result<(), ModelError>) where
        T: NodeDefinitionInfo + 'static,

        ensures
            result is Ok,
            final(self).definitions() == if old(self).definitions().contains_key(
                definition.info().definition_id,
            ) {
                old(self).definitions()
            } else {
                old(self).definitions().insert(definition.info().definition_id, definition.info())
            },
    {
        proof {
            use_type_invariant(&*self);
        }
        let id = definition.definition_id();
        if self.definitions.contains_key(&id.bits) {
            return Ok(());
        }
        let record = RegisteredNodeDefinition {
            definition_id: id,
            name: String::from_str(definition.name()),
            description: String::from_str(definition.description()),
            model_version: definition.model_version(),
            input_ports: definition.input_port_specs(),
            output_ports: definition.output_port_specs(),
        };
        let mut definitions: HashMap<u128, RegisteredNodeDefinition> = HashMap::new();
        core::mem::swap(&mut self.definitions, &mut definitions);
        definitions.insert(id.bits, record);
        core::mem::swap(&mut self.definitions, &mut definitions);
        assert(self.definitions() =~= old(self).definitions().insert(id, definition.info()));
        Ok(())
    }

    /// The definition registered under `definition_id`, or the error that
    /// says that there is none.
    pub fn get(&self, definition_id: &Uuid) -> (result: Result<
        &RegisteredNodeDefinition,
        ModelError,
    >)
        ensures
            match result {
                Ok(found) => self.definitions().contains_key(*definition_id) && found@
                    == self.definitions()[*definition_id] && found@.definition_id == *definition_id,
                Err(error) => !self.definitions().contains_key(*definition_id) && error@
                    == definition_not_found(*definition_id),
            },
    {
        proof {
            use_type_invariant(self);
        }
        match self.definitions.get(&definition_id.bits) {
            Some(found) => Ok(found),
            None => {
                let text = definition_id.to_string();
                Err(
                    ModelError::model(
                        String::from_str("Node definition not found: ").concat(
                            text.as_str(),
                        ).concat(" "),
                    ),
                )
            },
        }
    }
}

} // verus!
