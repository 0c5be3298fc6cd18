//! The signal: a data type without a payload, for control flow alone.

use crate::model::graph::data_type::{DataType, DataTypeInfo, DataTypeView};
use crate::model::ident::Uuid;
use crate::model::version::Version;
use crate::types::error::{TypeError, TypeErrorView};
use vstd::prelude::*;
use vstd::string::StringExecFns;

verus! {

/// The identifier of the signal type, `989bcbb2-b1a1-4f3f-be15-22ada278aedc`.
pub const SIGNAL_TYPE_ID: u128 = 0x989bcbb2_b1a1_4f3f_be15_22ada278aedc;

/// The name of the signal type.
pub const SIGNAL_NAME: &'static str = "Signal";

/// What the signal type stands for.
pub const SIGNAL_DESCRIPTION: &'static str = "A flow control signal with no data payload";

/// The version of the model that the built-in types are built against.
pub open spec fn built_in_version() -> Version {
    Version { major: 0, minor: 1, patch: 0 }
}

/// A flow control signal. It carries no data: its only value is `()`, and
/// the bytes that stand for it are none.
#[derive(Clone, Copy, Debug)]
pub struct SignalType;

impl DataTypeInfo for SignalType {
    open spec fn info(&self) -> DataTypeView {
        DataTypeView {
            type_id: Uuid { bits: SIGNAL_TYPE_ID },
            name: SIGNAL_NAME@,
            description: SIGNAL_DESCRIPTION@,
            model_version: built_in_version(),
        }
    }

    fn type_id(&self) -> (id: Uuid) {
        Uuid::from_u128(SIGNAL_TYPE_ID)
    }

    fn name(&self) -> (name: &str) {
        SIGNAL_NAME
    }

    fn description(&self) -> (description: &str) {
        SIGNAL_DESCRIPTION
    }

    fn model_version(&self) -> (version: Version) {
        Version::new(0, 1, 0)
    }
}

impl DataType for SignalType {
    type Value = ();

    type Error = TypeError;

    /// A signal is written as no bytes at all.
    fn serialize(&self, value: ()) -> (result: Result<Vec<u8>, TypeError>)
        ensures
            result matches Ok(bytes) && bytes@.len() == 0,
    {
        Ok(Vec::new())
    }

    /// A signal is read from no bytes at all; any byte is refused.
    fn deserialize(&self, bytes: &[u8]) -> (result: Result<(), TypeError>)
        ensures
            bytes@.len() == 0 ==> result is Ok,
            bytes@.len() > 0 ==> (result matches Err(error) && error@ == (
            TypeErrorView::DeserializationError {
                message: "Signal type expects empty bytes."@,
            })),
    {
        if bytes.len() > 0 {
            return Err(
                TypeError::DeserializationError {
                    message: String::from_str("Signal type expects empty bytes."),
                },
            );
        }
        Ok(())
    }
}

} // verus!
