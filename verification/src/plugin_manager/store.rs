//! The store of what modules declared: data types and nodes, each kept under
//! its identifier.
//!
//! Registering under an identifier that is already taken replaces the earlier
//! record; nothing is ever refused. The store is plain data, and what each
//! operation does to it is stated exactly. The registry that an application
//! shares guards one such store with a lock.

use crate::proto::{NodeDefinition, NodeDefinitionView, TypeDefinition, TypeDefinitionView};
use vstd::prelude::*;
use vstd::string::StringExecFns;

verus! {

/// How loudly a notice is meant.
#[derive(Clone, Copy, Debug, PartialEq, Eq, Structural)]
pub enum NoticeLevel {
    /// Routine: a record was added.
    Debug,
    /// Worth an operator's attention: a record replaced an earlier one.
    Warn,
}

/// What a registration has to tell the operator.
#[derive(Debug)]
pub struct Notice {
    pub level: NoticeLevel,
    pub message: String,
}

/// The mathematical value of a [`Notice`].
pub struct NoticeView {
    pub level: NoticeLevel,
    pub message: Seq<char>,
}

impl View for Notice {
    type V = NoticeView;

    open spec fn view(&self) -> NoticeView {
        NoticeView { level: self.level, message: self.message@ }
    }
}

/// The values of a sequence of notices, in the same order.
pub open spec fn notice_views(notices: Seq<Notice>) -> Seq<NoticeView> {
    notices.map_values(|notice: Notice| notice@)
}

/// The values of a sequence of type records, in the same order.
pub open spec fn type_views(types: Seq<TypeDefinition>) -> Seq<TypeDefinitionView> {
    types.map_values(|definition: TypeDefinition| definition@)
}

/// The values of a sequence of node records, in the same order.
pub open spec fn node_views(nodes: Seq<NodeDefinition>) -> Seq<NodeDefinitionView> {
    nodes.map_values(|definition: NodeDefinition| definition@)
}

/// The identifiers of a sequence of type records, in the same order.
pub open spec fn type_ids(types: Seq<TypeDefinitionView>) -> Seq<Seq<char>> {
    types.map_values(|definition: TypeDefinitionView| definition.id)
}

/// The identifiers of a sequence of node records, in the same order.
pub open spec fn node_ids(nodes: Seq<NodeDefinitionView>) -> Seq<Seq<char>> {
    nodes.map_values(|definition: NodeDefinitionView| definition.id)
}

/// Whether no identifier occurs twice.
pub open spec fn distinct(ids: Seq<Seq<char>>) -> bool {
    forall|i: int, j: int| 0 <= i < j < ids.len() ==> ids[i] != ids[j]
}

/// Whether `id` is among `ids`.
pub open spec fn is_registered(ids: Seq<Seq<char>>, id: Seq<char>) -> bool {
    exists|i: int| 0 <= i < ids.len() && ids[i] == id
}

/// A place at which `id` stands in `ids`, where it stands at one. Among
/// distinct identifiers it is the only such place.
pub open spec fn position(ids: Seq<Seq<char>>, id: Seq<char>) -> int {
    choose|i: int| 0 <= i < ids.len() && ids[i] == id
}

/// The type records after `record` was registered: it takes the place of the
/// record with its identifier, or comes last if there was none.
pub open spec fn with_type(types: Seq<TypeDefinitionView>, record: TypeDefinitionView) -> Seq<
    TypeDefinitionView,
> {
    if is_registered(type_ids(types), record.id) {
        types.update(position(type_ids(types), record.id), record)
    } else {
        types.push(record)
    }
}

/// The node records after `record` was registered: it takes the place of the
/// record with its identifier, or comes last if there was none.
pub open spec fn with_node(nodes: Seq<NodeDefinitionView>, record: NodeDefinitionView) -> Seq<
    NodeDefinitionView,
> {
    if is_registered(node_ids(nodes), record.id) {
        nodes.update(position(node_ids(nodes), record.id), record)
    } else {
        nodes.push(record)
    }
}

/// The type record kept under `id`, if there is one.
pub open spec fn lookup_type(types: Seq<TypeDefinitionView>, id: Seq<char>) -> Option<
    TypeDefinitionView,
> {
    if is_registered(type_ids(types), id) {
        Some(types[position(type_ids(types), id)])
    } else {
        None
    }
}

/// The node record kept under `id`, if there is one.
pub open spec fn lookup_node(nodes: Seq<NodeDefinitionView>, id: Seq<char>) -> Option<
    NodeDefinitionView,
> {
    if is_registered(node_ids(nodes), id) {
        Some(nodes[position(node_ids(nodes), id)])
    } else {
        None
    }
}

/// What registering a record tells the operator: a warning that names the
/// identifier and both versions where a record is replaced, else a routine
/// line that names the record. `what` is `type` or `node`.
pub open spec fn registration_notice(
    what: Seq<char>,
    replaced_version: Option<Seq<char>>,
    id: Seq<char>,
    name: Seq<char>,
    version: Seq<char>,
) -> NoticeView {
    match replaced_version {
        Some(previous) => NoticeView {
            level: NoticeLevel::Warn,
            message: "Replacing existing "@ + what + " '"@ + id + "' (version "@ + previous
                + ") with version "@ + version,
        },
        None => NoticeView {
            level: NoticeLevel::Debug,
            message: "Registering "@ + what + ": "@ + name + " ("@ + id + ")"@,
        },
    }
}

/// What registering the type `record` among `types` tells the operator.
pub open spec fn type_notice(types: Seq<TypeDefinitionView>, record: TypeDefinitionView)
    -> NoticeView {
    registration_notice(
        "type"@,
        match lookup_type(types, record.id) {
            Some(existing) => Some(existing.version),
            None => None,
        },
        record.id,
        record.name,
        record.version,
    )
}

/// What registering the node `record` among `nodes` tells the operator.
pub open spec fn node_notice(nodes: Seq<NodeDefinitionView>, record: NodeDefinitionView)
    -> NoticeView {
    registration_notice(
        "node"@,
        match lookup_node(nodes, record.id) {
            Some(existing) => Some(existing.version),
            None => None,
        },
        record.id,
        record.name,
        record.version,
    )
}

/// Among distinct identifiers, the place at which one stands is its position.
pub proof fn lemma_position_is_unique(ids: Seq<Seq<char>>, id: Seq<char>, place: int)
    requires
        distinct(ids),
        0 <= place < ids.len(),
        ids[place] == id,
    ensures
        is_registered(ids, id),
        position(ids, id) == place,
{
    let chosen = position(ids, id);
    if chosen < place {
        assert(ids[chosen] != ids[place]);
    }
    if place < chosen {
        assert(ids[place] != ids[chosen]);
    }
}

/// Registering a type keeps identifiers distinct, keeps every other record,
/// and makes the new record the one found under its identifier.
pub proof fn lemma_with_type(types: Seq<TypeDefinitionView>, record: TypeDefinitionView)
    requires
        distinct(type_ids(types)),
    ensures
        distinct(type_ids(with_type(types, record))),
        lookup_type(with_type(types, record), record.id) == Some(record),
        forall|id: Seq<char>|
            id != record.id ==> #[trigger] lookup_type(with_type(types, record), id)
                == lookup_type(types, id),
        with_type(types, record).len() == if is_registered(type_ids(types), record.id) {
            types.len()
        } else {
            types.len() + 1
        },
{
    let ids = type_ids(types);
    let after = with_type(types, record);
    let after_ids = type_ids(after);
    let place = if is_registered(ids, record.id) {
        position(ids, record.id)
    } else {
        types.len() as int
    };
    assert(after_ids =~= if is_registered(ids, record.id) {
        ids.update(place, record.id)
    } else {
        ids.push(record.id)
    });
    assert(after_ids[place] == record.id);
    assert forall|i: int, j: int| 0 <= i < j < after_ids.len() implies after_ids[i]
        != after_ids[j] by {
        if i < ids.len() && j < ids.len() {
            assert(ids[i] != ids[j]);
        }
    }
    lemma_position_is_unique(after_ids, record.id, place);
    assert forall|id: Seq<char>| id != record.id implies #[trigger] lookup_type(after, id)
        == lookup_type(types, id) by {
        if is_registered(ids, id) {
            let at = position(ids, id);
            assert(after_ids[at] == id);
            lemma_position_is_unique(after_ids, id, at);
        } else if is_registered(after_ids, id) {
            let at = position(after_ids, id);
            assert(ids[at] == id);
        }
    }
}

/// Registering a node keeps identifiers distinct, keeps every other record,
/// and makes the new record the one found under its identifier.
pub proof fn lemma_with_node(nodes: Seq<NodeDefinitionView>, record: NodeDefinitionView)
    requires
        distinct(node_ids(nodes)),
    ensures
        distinct(node_ids(with_node(nodes, record))),
        lookup_node(with_node(nodes, record), record.id) == Some(record),
        forall|id: Seq<char>|
            id != record.id ==> #[trigger] lookup_node(with_node(nodes, record), id)
                == lookup_node(nodes, id),
        with_node(nodes, record).len() == if is_registered(node_ids(nodes), record.id) {
            nodes.len()
        } else {
            nodes.len() + 1
        },
{
    let ids = node_ids(nodes);
    let after = with_node(nodes, record);
    let after_ids = node_ids(after);
    let place = if is_registered(ids, record.id) {
        position(ids, record.id)
    } else {
        nodes.len() as int
    };
    assert(after_ids =~= if is_registered(ids, record.id) {
        ids.update(place, record.id)
    } else {
        ids.push(record.id)
    });
    assert(after_ids[place] == record.id);
    assert forall|i: int, j: int| 0 <= i < j < after_ids.len() implies after_ids[i]
        != after_ids[j] by {
        if i < ids.len() && j < ids.len() {
            assert(ids[i] != ids[j]);
        }
    }
    lemma_position_is_unique(after_ids, record.id, place);
    assert forall|id: Seq<char>| id != record.id implies #[trigger] lookup_node(after, id)
        == lookup_node(nodes, id) by {
        if is_registered(ids, id) {
            let at = position(ids, id);
            assert(after_ids[at] == id);
            lemma_position_is_unique(after_ids, id, at);
        } else if is_registered(after_ids, id) {
            let at = position(after_ids, id);
            assert(ids[at] == id);
        }
    }
}

/// Of two types registered one after the other under one identifier, the
/// second is the one that stays: the store holds exactly one record under
/// that identifier, that record is the second, the store did not grow, and
/// the second registration is announced as a replacement, with the first
/// one's version.
pub proof fn lemma_last_type_wins(
    types: Seq<TypeDefinitionView>,
    first: TypeDefinitionView,
    second: TypeDefinitionView,
)
    requires
        distinct(type_ids(types)),
        first.id == second.id,
    ensures
        distinct(type_ids(with_type(with_type(types, first), second))),
        lookup_type(with_type(with_type(types, first), second), second.id) == Some(second),
        with_type(with_type(types, first), second).len() == with_type(types, first).len(),
        type_notice(with_type(types, first), second) == registration_notice(
            "type"@,
            Some(first.version),
            second.id,
            second.name,
            second.version,
        ),
        type_notice(with_type(types, first), second).level == NoticeLevel::Warn,
{
    lemma_with_type(types, first);
    lemma_with_type(with_type(types, first), second);
}

/// Of two nodes registered one after the other under one identifier, the
/// second is the one that stays: the store holds exactly one record under
/// that identifier, that record is the second, the store did not grow, and
/// the second registration is announced as a replacement, with the first
/// one's version.
pub proof fn lemma_last_node_wins(
    nodes: Seq<NodeDefinitionView>,
    first: NodeDefinitionView,
    second: NodeDefinitionView,
)
    requires
        distinct(node_ids(nodes)),
        first.id == second.id,
    ensures
        distinct(node_ids(with_node(with_node(nodes, first), second))),
        lookup_node(with_node(with_node(nodes, first), second), second.id) == Some(second),
        with_node(with_node(nodes, first), second).len() == with_node(nodes, first).len(),
        node_notice(with_node(nodes, first), second) == registration_notice(
            "node"@,
            Some(first.version),
            second.id,
            second.name,
            second.version,
        ),
        node_notice(with_node(nodes, first), second).level == NoticeLevel::Warn,
{
    lemma_with_node(nodes, first);
    lemma_with_node(with_node(nodes, first), second);
}

/// The store of registered records, without a lock around it.
#[derive(Debug)]
pub struct RegistryInner {
    nodes: Vec<NodeDefinition>,
    types: Vec<TypeDefinition>,
}

/// The mathematical value of a [`RegistryInner`]: the records of each
/// kind, in the order in which their identifiers were first registered.
pub struct RegistryView {
    pub types: Seq<TypeDefinitionView>,
    pub nodes: Seq<NodeDefinitionView>,
}

impl View for RegistryInner {
    type V = RegistryView;

    closed spec fn view(&self) -> RegistryView {
        RegistryView { types: type_views(self.types@), nodes: node_views(self.nodes@) }
    }
}

/// Whether each kind of record has distinct identifiers. Every
/// [`RegistryInner`] is well formed.
pub open spec fn well_formed(registry: RegistryView) -> bool {
    distinct(type_ids(registry.types)) && distinct(node_ids(registry.nodes))
}

/// Builds the line that announces a registration.
fn build_notice(
    what: &str,
    replaced_version: Option<&String>,
    id: &String,
    name: &String,
    version: &String,
) -> (notice: Notice)
    ensures
        notice@ == registration_notice(
            what@,
            match replaced_version {
                Some(previous) => Some(previous@),
                None => None,
            },
            id@,
            name@,
            version@,
        ),
{
    match replaced_version {
        Some(previous) => Notice {
            level: NoticeLevel::Warn,
            message: String::from_str("Replacing existing ").concat(what).concat(" '").concat(
                id.as_str(),
            ).concat("' (version ").concat(previous.as_str()).concat(") with version ").concat(
                version.as_str(),
            ),
        },
        None => Notice {
            level: NoticeLevel::Debug,
            message: String::from_str("Registering ").concat(what).concat(": ").concat(
                name.as_str(),
            ).concat(" (").concat(id.as_str()).concat(")"),
        },
    }
}

impl Default for RegistryInner {
    /// The store that holds nothing.
    fn default() -> (registry: Self)
        ensures
            registry@ == (RegistryView { types: Seq::empty(), nodes: Seq::empty() }),
    {
        let registry = RegistryInner { nodes: Vec::new(), types: Vec::new() };
        assert(registry@.types =~= Seq::empty());
        assert(registry@.nodes =~= Seq::empty());
        registry
    }
}

impl RegistryInner {
    #[verifier::type_invariant]
    spec fn identifiers_are_distinct(self) -> bool {
        well_formed(self@)
    }

    /// The place of the type record with identifier `id`, if there is one.
    fn find_type(&self, id: &String) -> (found: Option<usize>)
        ensures
            well_formed(self@),
            match found {
                Some(place) => place < self.types@.len() && is_registered(
                    type_ids(self@.types),
                    id@,
                ) && position(type_ids(self@.types), id@) == place,
                None => !is_registered(type_ids(self@.types), id@),
            },
    {
        proof {
            use_type_invariant(self);
        }
        let mut i: usize = 0;
        while i < self.types.len()
            invariant
                i <= self.types.len(),
                well_formed(self@),
                self@.types == type_views(self.types@),
                forall|k: int| 0 <= k < i ==> type_ids(self@.types)[k] != id@,
            decreases self.types.len() - i,
        {
            if self.types[i].id == *id {
                proof {
                    lemma_position_is_unique(type_ids(self@.types), id@, i as int);
                }
                return Some(i);
            }
            i += 1;
        }
        None
    }

    /// The place of the node record with identifier `id`, if there is one.
    fn find_node(&self, id: &String) -> (found: Option<usize>)
        ensures
            well_formed(self@),
            match found {
                Some(place) => place < self.nodes@.len() && is_registered(
                    node_ids(self@.nodes),
                    id@,
                ) && position(node_ids(self@.nodes), id@) == place,
                None => !is_registered(node_ids(self@.nodes), id@),
            },
    {
        proof {
            use_type_invariant(self);
        }
        let mut i: usize = 0;
        while i < self.nodes.len()
            invariant
                i <= self.nodes.len(),
                well_formed(self@),
                self@.nodes == node_views(self.nodes@),
                forall|k: int| 0 <= k < i ==> node_ids(self@.nodes)[k] != id@,
            decreases self.nodes.len() - i,
        {
            if self.nodes[i].id == *id {
                proof {
                    lemma_position_is_unique(node_ids(self@.nodes), id@, i as int);
                }
                return Some(i);
            }
            i += 1;
        }
        None
    }

    /// Registers a node under its identifier, in place of the node that was
    /// registered under it before, if there was one. The notice says which
    /// of the two happened.
    pub fn register_node(&mut self, node: NodeDefinition) -> (notice: Notice)
        ensures
            final(self)@.nodes == with_node(old(self)@.nodes, node@),
            final(self)@.types == old(self)@.types,
            notice@ == node_notice(old(self)@.nodes, node@),
            well_formed(final(self)@),
    {
        let found = self.find_node(&node.id);
        proof {
            lemma_with_node(self@.nodes, node@);
        }
        let mut nodes: Vec<NodeDefinition> = Vec::new();
        core::mem::swap(&mut self.nodes, &mut nodes);
        let notice = match found {
            Some(place) => {
                let notice = build_notice(
                    "node",
                    Some(&nodes[place].version),
                    &node.id,
                    &node.name,
                    &node.version,
                );
                nodes.set(place, node);
                notice
            },
            None => {
                let notice = build_notice("node", None, &node.id, &node.name, &node.version);
                nodes.push(node);
                notice
            },
        };
        assert(node_views(nodes@) =~= with_node(old(self)@.nodes, node@));
        core::mem::swap(&mut self.nodes, &mut nodes);
        notice
    }

    /// Registers a type under its identifier, in place of the type that was
    /// registered under it before, if there was one. The notice says which
    /// of the two happened.
    pub fn register_type(&mut self, type_def: TypeDefinition) -> (notice: Notice)
        ensures
            final(self)@.types == with_type(old(self)@.types, type_def@),
            final(self)@.nodes == old(self)@.nodes,
            notice@ == type_notice(old(self)@.types, type_def@),
            well_formed(final(self)@),
    {
        let found = self.find_type(&type_def.id);
        proof {
            lemma_with_type(self@.types, type_def@);
        }
        let mut types: Vec<TypeDefinition> = Vec::new();
        core::mem::swap(&mut self.types, &mut types);
        let notice = match found {
            Some(place) => {
                let notice = build_notice(
                    "type",
                    Some(&types[place].version),
                    &type_def.id,
                    &type_def.name,
                    &type_def.version,
                );
                types.set(place, type_def);
                notice
            },
            None => {
                let notice = build_notice(
                    "type",
                    None,
                    &type_def.id,
                    &type_def.name,
                    &type_def.version,
                );
                types.push(type_def);
                notice
            },
        };
        assert(type_views(types@) =~= with_type(old(self)@.types, type_def@));
        core::mem::swap(&mut self.types, &mut types);
        notice
    }

    /// A copy of the node registered under `id`, or `None` if there is none.
    pub fn get_node(&self, id: &str) -> (found: Option<NodeDefinition>)
        ensures
            well_formed(self@),
            match found {
                Some(node) => lookup_node(self@.nodes, id@) == Some(node@),
                None => lookup_node(self@.nodes, id@) is None,
            },
    {
        let key = String::from_str(id);
        match self.find_node(&key) {
            Some(place) => Some(self.nodes[place].clone()),
            None => None,
        }
    }

    /// A copy of the type registered under `id`, or `None` if there is none.
    pub fn get_type(&self, id: &str) -> (found: Option<TypeDefinition>)
        ensures
            well_formed(self@),
            match found {
                Some(definition) => lookup_type(self@.types, id@) == Some(definition@),
                None => lookup_type(self@.types, id@) is None,
            },
    {
        let key = String::from_str(id);
        match self.find_type(&key) {
            Some(place) => Some(self.types[place].clone()),
            None => None,
        }
    }

    /// Copies of all registered nodes, each identifier once.
    pub fn list_nodes(&self) -> (nodes: Vec<NodeDefinition>)
        ensures
            node_views(nodes@) == self@.nodes,
            well_formed(self@),
    {
        proof {
            use_type_invariant(self);
        }
        let mut nodes: Vec<NodeDefinition> = Vec::new();
        let mut i: usize = 0;
        while i < self.nodes.len()
            invariant
                i <= self.nodes.len(),
                nodes@.len() == i,
                forall|k: int| 0 <= k < i ==> (#[trigger] nodes@[k])@ == self.nodes@[k]@,
            decreases self.nodes.len() - i,
        {
            nodes.push(self.nodes[i].clone());
            i += 1;
        }
        assert(node_views(nodes@) =~= self@.nodes);
        nodes
    }

    /// Copies of all registered types, each identifier once.
    pub fn list_types(&self) -> (types: Vec<TypeDefinition>)
        ensures
            type_views(types@) == self@.types,
            well_formed(self@),
    {
        proof {
            use_type_invariant(self);
        }
        let mut types: Vec<TypeDefinition> = Vec::new();
        let mut i: usize = 0;
        while i < self.types.len()
            invariant
                i <= self.types.len(),
                types@.len() == i,
                forall|k: int| 0 <= k < i ==> (#[trigger] types@[k])@ == self.types@[k]@,
            decreases self.types.len() - i,
        {
            types.push(self.types[i].clone());
            i += 1;
        }
        assert(type_views(types@) =~= self@.types);
        types
    }
}

} // verus!
