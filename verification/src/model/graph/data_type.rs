//! Data types: what can flow along an edge.

use crate::model::ident::Uuid;
use crate::model::version::Version;
use vstd::prelude::*;

verus! {

/// What a data type declares about itself.
pub struct DataTypeView {
    pub type_id: Uuid,
    pub name: Seq<char>,
    pub description: Seq<char>,
    pub model_version: Version,
}

/// The description of a data type. Built-in types and types that extension
/// modules bring implement it; every method reports one part of
/// [`DataTypeInfo::info`].
pub trait DataTypeInfo {
    /// All that the type declares about itself. An implementation that is
    /// to be verified says here what its methods return; one that leaves
    /// this as it stands claims nothing.
    open spec fn info(&self) -> DataTypeView {
        arbitrary()
    }

    /// The identifier of the type.
    fn type_id(&self) -> (id: Uuid)
        ensures
            id == self.info().type_id,
    ;

    /// The name of the type, for people.
    fn name(&self) -> (name: &str)
        ensures
            name@ == self.info().name,
    ;

    /// What the type stands for.
    fn description(&self) -> (description: &str)
        ensures
            description@ == self.info().description,
    ;

    /// The version of the model that the type was built against.
    fn model_version(&self) -> (version: Version)
        ensures
            version == self.info().model_version,
    ;
}

/// A data type whose values can cross a module boundary as bytes.
pub trait DataType: DataTypeInfo {
    /// The values of this type.
    type Value;

    /// What goes wrong when a value or its bytes are not of this type.
    type Error;

    /// The bytes that stand for `value`.
    fn serialize(&self, value: Self::Value) -> Result<Vec<u8>, Self::Error>;

    /// The value that `bytes` stand for.
    fn deserialize(&self, bytes: &[u8]) -> Result<Self::Value, Self::Error>;
}

} // verus!
