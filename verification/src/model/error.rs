//! Errors of the domain model.

use crate::model::ident::{uuid_text, Uuid};
use vstd::prelude::*;
use vstd::string::StringExecFns;

verus! {

/// What went wrong while building or changing a part of the model.
#[derive(Debug)]
pub enum ModelError {
    /// A graph, node, edge or registry operation was refused.
    ModelError { message: String },
    /// A camera could not be configured.
    CameraError { message: String },
    /// A port could not be built.
    PortError { message: String, port_name: String, data_type_id: Uuid },
}

/// The mathematical value of a [`ModelError`].
pub enum ModelErrorView {
    ModelError { message: Seq<char> },
    CameraError { message: Seq<char> },
    PortError { message: Seq<char>, port_name: Seq<char>, data_type_id: Uuid },
}

impl View for ModelError {
    type V = ModelErrorView;

    open spec fn view(&self) -> ModelErrorView {
        match self {
            ModelError::ModelError { message } => ModelErrorView::ModelError { message: message@ },
            ModelError::CameraError { message } => ModelErrorView::CameraError {
                message: message@,
            },
            ModelError::PortError { message, port_name, data_type_id } => {
                ModelErrorView::PortError {
                    message: message@,
                    port_name: port_name@,
                    data_type_id: *data_type_id,
                }
            },
        }
    }
}

impl Clone for ModelError {
    fn clone(&self) -> (copy: Self)
        ensures
            copy@ == self@,
    {
        match self {
            ModelError::ModelError { message } => ModelError::ModelError {
                message: message.clone(),
            },
            ModelError::CameraError { message } => ModelError::CameraError {
                message: message.clone(),
            },
            ModelError::PortError { message, port_name, data_type_id } => ModelError::PortError {
                message: message.clone(),
                port_name: port_name.clone(),
                data_type_id: *data_type_id,
            },
        }
    }
}

/// The text that a [`ModelError`] shows to a reader.
pub open spec fn model_error_text(error: ModelErrorView) -> Seq<char> {
    match error {
        ModelErrorView::ModelError { message } => "Model Error: "@ + message,
        ModelErrorView::CameraError { message } => "Camera Error: "@ + message,
        ModelErrorView::PortError { message, port_name, data_type_id } => "Port Error: "@ + message
            + " (port: '"@ + port_name + "', type: "@ + uuid_text(data_type_id.bits) + ")"@,
    }
}

impl ModelError {
    /// A general model error with the given message.
    pub fn model(message: String) -> (error: ModelError)
        ensures
            error@ == (ModelErrorView::ModelError { message: message@ }),
    {
        ModelError::ModelError { message }
    }

    /// The text of the error: its kind, then its message and, for a port, the
    /// port's name and data type.
    pub fn to_string(&self) -> (text: String)
        ensures
            text@ == model_error_text(self@),
    {
        match self {
            ModelError::ModelError { message } => String::from_str("Model Error: ").concat(
                message.as_str(),
            ),
            ModelError::CameraError { message } => String::from_str("Camera Error: ").concat(
                message.as_str(),
            ),
            ModelError::PortError { message, port_name, data_type_id } => {
                let type_text = data_type_id.to_string();
                String::from_str("Port Error: ").concat(message.as_str()).concat(
                    " (port: '",
                ).concat(port_name.as_str()).concat("', type: ").concat(type_text.as_str()).concat(
                    ")",
                )
            },
        }
    }
}

} // verus!
