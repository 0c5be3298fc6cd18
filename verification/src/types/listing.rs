//! What the built-in types report about themselves.

use crate::model::graph::data_type::{DataTypeInfo, DataTypeView};
use crate::model::ident::uuid_text;
use crate::model::version::version_text;
use crate::types::signal::SignalType;
use crate::wit::{type_info_views, TypeInfo, TypeInfoView};
use vstd::prelude::*;
use vstd::string::StringExecFns;

verus! {

/// The record that reports a data type: its identifier and version as text,
/// its name and description as they are.
pub open spec fn type_record(info: DataTypeView) -> TypeInfoView {
    TypeInfoView {
        id: uuid_text(info.type_id.bits),
        name: info.name,
        description: info.description,
        version: version_text(info.model_version),
    }
}

/// Reports a data type.
pub fn describe_type<T: DataTypeInfo>(data_type: &T) -> (record: TypeInfo)
    ensures
        record@ == type_record(data_type.info()),
{
    TypeInfo {
        id: data_type.type_id().to_string(),
        name: String::from_str(data_type.name()),
        description: String::from_str(data_type.description()),
        version: data_type.model_version().to_string(),
    }
}

/// The records of the built-in data types: the signal alone.
pub fn list_types() -> (records: Vec<TypeInfo>)
    ensures
        type_info_views(records@) == seq![type_record(SignalType.info())],
{
    let records = vec![describe_type(&SignalType)];
    assert(type_info_views(records@) =~= seq![type_record(SignalType.info())]);
    records
}

} // verus!
