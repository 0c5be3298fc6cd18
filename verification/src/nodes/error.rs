//! Errors of the built-in nodes.

use vstd::prelude::*;
use vstd::string::StringExecFns;

verus! {

/// What went wrong while a node ran.
#[derive(Debug)]
pub enum NodeError {
    /// The node could not do its work.
    ExecutionError { message: String },
    /// The node was given inputs that it cannot take.
    InvalidInput { message: String },
    /// An output could not be turned into bytes.
    SerializationError { message: String },
    /// An input could not be read from its bytes.
    DeserializationError { message: String },
}

/// The mathematical value of a [`NodeError`].
pub enum NodeErrorView {
    ExecutionError { message: Seq<char> },
    InvalidInput { message: Seq<char> },
    SerializationError { message: Seq<char> },
    DeserializationError { message: Seq<char> },
}

impl View for NodeError {
    type V = NodeErrorView;

    open spec fn view(&self) -> NodeErrorView {
        match self {
            NodeError::ExecutionError { message } => NodeErrorView::ExecutionError {
                message: message@,
            },
            NodeError::InvalidInput { message } => NodeErrorView::InvalidInput {
                message: message@,
            },
            NodeError::SerializationError { message } => NodeErrorView::SerializationError {
                message: message@,
            },
            NodeError::DeserializationError { message } => NodeErrorView::DeserializationError {
                message: message@,
            },
        }
    }
}

/// The text that a [`NodeError`] shows to a reader.
pub open spec fn node_error_text(error: NodeErrorView) -> Seq<char> {
    match error {
        NodeErrorView::ExecutionError { message } => "Execution failed: "@ + message,
        NodeErrorView::InvalidInput { message } => "Invalid input: "@ + message,
        NodeErrorView::SerializationError { message } => "Serialization failed: "@ + message,
        NodeErrorView::DeserializationError { message } => "Deserialization failed: "@ + message,
    }
}

impl NodeError {
    /// The text of the error.
    pub fn to_string(&self) -> (text: String)
        ensures
            text@ == node_error_text(self@),
    {
        match self {
            NodeError::ExecutionError { message } => String::from_str("Execution failed: ").concat(
                message.as_str(),
            ),
            NodeError::InvalidInput { message } => String::from_str("Invalid input: ").concat(
                message.as_str(),
            ),
            NodeError::SerializationError { message } => String::from_str(
                "Serialization failed: ",
            ).concat(message.as_str()),
            NodeError::DeserializationError { message } => String::from_str(
                "Deserialization failed: ",
            ).concat(message.as_str()),
        }
    }
}

} // verus!
