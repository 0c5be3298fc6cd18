//! Step-by-step construction of ports.

use crate::model::error::{ModelError, ModelErrorView};
use crate::model::graph::port::Port;
use crate::model::ident::{is_random_variant, Uuid};
use vstd::prelude::*;
use vstd::string::StringExecFns;

verus! {

/// Collects the parts of a port. Dropping the builder builds nothing.
#[derive(Debug)]
#[must_use]
pub struct PortBuilder {
    id: Option<Uuid>,
    name: Option<String>,
    data_type_id: Option<Uuid>,
}

/// The mathematical value of a [`PortBuilder`]: the parts given so far.
pub struct PortBuilderView {
    pub id: Option<Uuid>,
    pub name: Option<Seq<char>>,
    pub data_type_id: Option<Uuid>,
}

impl View for PortBuilder {
    type V = PortBuilderView;

    closed spec fn view(&self) -> PortBuilderView {
        PortBuilderView {
            id: self.id,
            name: match self.name {
                Some(name) => Some(name@),
                None => None,
            },
            data_type_id: self.data_type_id,
        }
    }
}

impl Default for PortBuilder {
    /// The builder to which nothing was given yet.
    fn default() -> (builder: Self)
        ensures
            builder@ == (PortBuilderView { id: None, name: None, data_type_id: None }),
    {
        PortBuilder { id: None, name: None, data_type_id: None }
    }
}

impl PortBuilder {
    /// Sets the identifier of the port.
    pub fn with_id(self, id: Uuid) -> (builder: Self)
        ensures
            builder@ == (PortBuilderView { id: Some(id), ..self@ }),
    {
        let mut builder = self;
        builder.id = Some(id);
        builder
    }

    /// Sets the name of the port.
    pub fn with_name(self, name: &str) -> (builder: Self)
        ensures
            builder@ == (PortBuilderView { name: Some(name@), ..self@ }),
    {
        let mut builder = self;
        builder.name = Some(String::from_str(name));
        builder
    }

    /// Sets the data type that the port carries.
    pub fn with_data_type_id(self, data_type_id: Uuid) -> (builder: Self)
        ensures
            builder@ == (PortBuilderView { data_type_id: Some(data_type_id), ..self@ }),
    {
        let mut builder = self;
        builder.data_type_id = Some(data_type_id);
        builder
    }

    /// Builds the port. A name and a data type are required, and the name is
    /// looked at first; an identifier that was not given is drawn at random.
    pub fn build(self) -> (result: Result<Port, ModelError>)
        ensures
            match (self@.name, self@.data_type_id) {
                (None, data_type_id) => result matches Err(error) && error@ == (
                ModelErrorView::PortError {
                    message: "Port name is required"@,
                    port_name: "<unnamed>"@,
                    data_type_id: match data_type_id {
                        Some(id) => id,
                        None => (Uuid { bits: 0 }),
                    },
                }),
                (Some(name), None) => result matches Err(error) && error@ == (
                ModelErrorView::PortError {
                    message: "Port Data Type ID is required"@,
                    port_name: name,
                    data_type_id: Uuid { bits: 0 },
                }),
                (Some(name), Some(data_type_id)) => result matches Ok(port) && port@.name == name
                    && port@.data_type_id == data_type_id && (match self@.id {
                    Some(id) => port@.id == id,
                    None => is_random_variant(port@.id.bits),
                }),
            },
    {
        let id = match self.id {
            Some(id) => id,
            None => Uuid::new_v4(),
        };
        let name = match self.name {
            Some(name) => name,
            None => {
                let data_type_id = match self.data_type_id {
                    Some(id) => id,
                    None => Uuid::nil(),
                };
                return Err(
                    ModelError::PortError {
                        message: String::from_str("Port name is required"),
                        port_name: String::from_str("<unnamed>"),
                        data_type_id,
                    },
                );
            },
        };
        let data_type_id = match self.data_type_id {
            Some(id) => id,
            None => {
                return Err(
                    ModelError::PortError {
                        message: String::from_str("Port Data Type ID is required"),
                        port_name: name,
                        data_type_id: Uuid::nil(),
                    },
                );
            },
        };
        Ok(Port::from_parts(id, name, data_type_id))
    }
}

} // verus!
