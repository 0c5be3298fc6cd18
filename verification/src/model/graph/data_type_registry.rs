//! The data types that a model knows, by identifier.

use crate::model::error::{ModelError, ModelErrorView};
use crate::model::graph::data_type::{DataTypeInfo, DataTypeView};
use crate::model::ident::{uuid_text, Uuid};
use crate::model::version::Version;
use std::collections::HashMap;
use vstd::prelude::*;
use vstd::string::StringExecFns;

verus! {

/// What the registry keeps of a data type: all that it declared about itself
/// when it was registered.
#[derive(Debug)]
pub struct RegisteredDataType {
    type_id: Uuid,
    name: String,
    description: String,
    model_version: Version,
}

impl View for RegisteredDataType {
    type V = DataTypeView;

    closed spec fn view(&self) -> DataTypeView {
        DataTypeView {
            type_id: self.type_id,
            name: self.name@,
            description: self.description@,
            model_version: self.model_version,
        }
    }
}

impl DataTypeInfo for RegisteredDataType {
    open spec fn info(&self) -> DataTypeView {
        self@
    }

    fn type_id(&self) -> (id: Uuid) {
        self.type_id
    }

    fn name(&self) -> (name: &str) {
        self.name.as_str()
    }

    fn description(&self) -> (description: &str) {
        self.description.as_str()
    }

    fn model_version(&self) -> (version: Version) {
        self.model_version
    }
}

/// The data types registered so far. A type is kept under its identifier, and
/// the first type registered under an identifier stays.
pub struct DataTypeRegistry {
    types: HashMap<u128, RegisteredDataType>,
}

impl DataTypeRegistry {
    #[verifier::type_invariant]
    spec fn keyed_by_identifier(self) -> bool {
        forall|key: u128| #[trigger]
            self.types@.contains_key(key) ==> self.types@[key]@.type_id.bits == key
    }

    /// What each registered identifier stands for.
    pub closed spec fn types(self) -> Map<Uuid, DataTypeView> {
        Map::new(|id: Uuid| self.types@.contains_key(id.bits), |id: Uuid| self.types@[id.bits]@)
    }

    /// The registry that holds nothing.
    pub fn new() -> (registry: Self)
        ensures
            registry.types() == Map::<Uuid, DataTypeView>::empty(),
    {
        let registry = DataTypeRegistry { types: HashMap::new() };
        assert(registry.types() =~= Map::<Uuid, DataTypeView>::empty());
        registry
    }

    /// Registers a data type under its identifier, unless a type is already
    /// registered under it. Never fails.
    pub fn register<T>(&mut self, data_type: T) -> (result: Result<(), ModelError>) where
        T: DataTypeInfo + 'static,

        ensures
            result is Ok,
            final(self).types() == if old(self).types().contains_key(data_type.info().type_id) {
                old(self).types()
            } else {
                old(self).types().insert(data_type.info().type_id, data_type.info())
            },
    {
        proof {
            use_type_invariant(&*self);
        }
        let id = data_type.type_id();
        if self.types.contains_key(&id.bits) {
            return Ok(());
        }
        let record = RegisteredDataType {
            type_id: id,
            name: String::from_str(data_type.name()),
            description: String::from_str(data_type.description()),
            model_version: data_type.model_version(),
        };
        let mut types: HashMap<u128, RegisteredDataType> = HashMap::new();
        core::mem::swap(&mut self.types, &mut types);
        types.insert(id.bits, record);
        core::mem::swap(&mut self.types, &mut types);
        assert(self.types() =~= old(self).types().insert(id, data_type.info()));
        Ok(())
    }

    /// The data type registered under `type_id`, or the error that says that
    /// there is none.
    pub fn get(&self, type_id: &Uuid) -> (result: Result<&RegisteredDataType, ModelError>)
        ensures
            match result {
                Ok(found) => self.types().contains_key(*type_id) && found@ == self.types()[*type_id]
                    && found@.type_id == *type_id,
                Err(error) => !self.types().contains_key(*type_id) && error@ == (
                ModelErrorView::ModelError {
                    message: "Data type not found: "@ + uuid_text(type_id.bits),
                }),
            },
    {
        proof {
            use_type_invariant(self);
        }
        match self.types.get(&type_id.bits) {
            Some(found) => Ok(found),
            None => {
                let text = type_id.to_string();
                Err(
                    ModelError::model(
                        String::from_str("Data type not found: ").concat(text.as_str()),
                    ),
                )
            },
        }
    }
}

} // verus!
