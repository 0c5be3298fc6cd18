//! Ports: the typed connection points of a node.

use crate::model::ident::Uuid;
use vstd::prelude::*;

verus! {

/// A connection point of a node, carrying values of one data type.
#[derive(Debug)]
pub struct Port {
    pub(crate) id: Uuid,
    pub(crate) name: String,
    pub(crate) data_type_id: Uuid,
}

/// The mathematical value of a [`Port`].
pub struct PortView {
    pub id: Uuid,
    pub name: Seq<char>,
    pub data_type_id: Uuid,
}

impl View for Port {
    type V = PortView;

    closed spec fn view(&self) -> PortView {
        PortView { id: self.id, name: self.name@, data_type_id: self.data_type_id }
    }
}

impl Clone for Port {
    fn clone(&self) -> (copy: Self)
        ensures
            copy@ == self@,
    {
        Port { id: self.id, name: self.name.clone(), data_type_id: self.data_type_id }
    }
}

/// The values of a sequence of ports, in the same order.
pub open spec fn port_views(ports: Seq<Port>) -> Seq<PortView> {
    ports.map_values(|port: Port| port@)
}

/// Whether one of `ports` has the identifier `id`.
pub open spec fn has_port(ports: Seq<PortView>, id: Uuid) -> bool {
    exists|i: int| 0 <= i < ports.len() && (#[trigger] ports[i]).id == id
}

impl Port {
    /// The port with the given parts.
    pub(crate) fn from_parts(id: Uuid, name: String, data_type_id: Uuid) -> (port: Port)
        ensures
            port@ == (PortView { id, name: name@, data_type_id }),
    {
        Port { id, name, data_type_id }
    }

    /// The identifier of the port.
    pub fn id(&self) -> (id: Uuid)
        ensures
            id == self@.id,
    {
        self.id
    }

    /// The name of the port.
    pub fn name(&self) -> (name: &str)
        ensures
            name@ == self@.name,
    {
        self.name.as_str()
    }

    /// The identifier of the data type that the port carries.
    pub fn data_type_id(&self) -> (id: Uuid)
        ensures
            id == self@.data_type_id,
    {
        self.data_type_id
    }
}

/// Copies a list of ports.
pub fn clone_ports(ports: &Vec<Port>) -> (copy: Vec<Port>)
    ensures
        port_views(copy@) == port_views(ports@),
{
    let mut copy: Vec<Port> = Vec::new();
    let mut i: usize = 0;
    while i < ports.len()
        invariant
            i <= ports.len(),
            copy@.len() == i,
            forall|k: int| 0 <= k < i ==> (#[trigger] copy@[k])@ == ports@[k]@,
        decreases ports.len() - i,
    {
        copy.push(ports[i].clone());
        i += 1;
    }
    assert(port_views(copy@) =~= port_views(ports@));
    copy
}

/// Whether one of `ports` has the identifier `id`.
pub fn contains_port(ports: &Vec<Port>, id: Uuid) -> (found: bool)
    ensures
        found == has_port(port_views(ports@), id),
{
    let mut i: usize = 0;
    while i < ports.len()
        invariant
            i <= ports.len(),
            forall|k: int| 0 <= k < i ==> (#[trigger] port_views(ports@)[k]).id != id,
        decreases ports.len() - i,
    {
        if ports[i].id() == id {
            assert(port_views(ports@)[i as int].id == id);
            return true;
        }
        i += 1;
    }
    false
}

} // verus!
