//! Errors of the built-in data types.

use vstd::prelude::*;
use vstd::string::StringExecFns;

verus! {

/// What went wrong while a value crossed a module boundary.
#[derive(Debug)]
pub enum TypeError {
    /// A value could not be turned into bytes.
    SerializationError { message: String },
    /// Bytes could not be turned into a value.
    DeserializationError { message: String },
    /// A value of one type stood where another type was expected.
    TypeMismatch { expected: String, got: String },
}

/// The mathematical value of a [`TypeError`].
pub enum TypeErrorView {
    SerializationError { message: Seq<char> },
    DeserializationError { message: Seq<char> },
    TypeMismatch { expected: Seq<char>, got: Seq<char> },
}

impl View for TypeError {
    type V = TypeErrorView;

    open spec fn view(&self) -> TypeErrorView {
        match self {
            TypeError::SerializationError { message } => TypeErrorView::SerializationError {
                message: message@,
            },
            TypeError::DeserializationError { message } => TypeErrorView::DeserializationError {
                message: message@,
            },
            TypeError::TypeMismatch { expected, got } => TypeErrorView::TypeMismatch {
                expected: expected@,
                got: got@,
            },
        }
    }
}

/// The text that a [`TypeError`] shows to a reader.
pub open spec fn type_error_text(error: TypeErrorView) -> Seq<char> {
    match error {
        TypeErrorView::SerializationError { message } => "Serialization failed: "@ + message,
        TypeErrorView::DeserializationError { message } => "Deserialization failed: "@ + message,
        TypeErrorView::TypeMismatch { expected, got } => "Type mismatch: expected "@ + expected
            + ", got "@ + got,
    }
}

impl TypeError {
    /// The text of the error.
    pub fn to_string(&self) -> (text: String)
        ensures
            text@ == type_error_text(self@),
    {
        match self {
            TypeError::SerializationError { message } => String::from_str(
                "Serialization failed: ",
            ).concat(message.as_str()),
            TypeError::DeserializationError { message } => String::from_str(
                "Deserialization failed: ",
            ).concat(message.as_str()),
            TypeError::TypeMismatch { expected, got } => String::from_str(
                "Type mismatch: expected ",
            ).concat(expected.as_str()).concat(", got ").concat(got.as_str()),
        }
    }
}

} // verus!
