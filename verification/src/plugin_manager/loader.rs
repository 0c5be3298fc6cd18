//! The engine in which modules are compiled, and what a compiled module
//! declares.
//!
//! Reading a module from disk and running it in a sandbox are the caller's
//! part. The loader owns the engine, classifies a compiled module by its
//! declared exports without running any of its code, and turns the outcome
//! of the caller's steps into this library's results.

use crate::plugin_manager::error::{
    is_load_error,
    is_sandbox_error,
    PluginManagerError,
    PluginManagerErrorView,
};
use crate::plugin_manager::scanner::string_views;
use crate::wit::{NodeInfo, TypeInfo};
use vstd::prelude::*;
use vstd::string::StringExecFns;

verus! {

/// The name under which the kind of a module that provides types is known.
pub const TYPES_KIND: &'static str = "types";

/// The name under which the kind of a module that provides nodes is known.
pub const NODES_KIND: &'static str = "nodes";

/// The interface that a module exports to provide data types.
pub const TYPES_INTERFACE: &'static str = "cognexus:plugin/types";

/// The interface that a module exports to provide nodes.
pub const NODES_INTERFACE: &'static str = "cognexus:plugin/nodes";

/// `wasmtime::Config`, the settings from which an engine is made.
#[verifier::external_type_specification]
#[verifier::external_body]
pub struct ExConfig(wasmtime::Config);

/// `wasmtime::Engine`, in which modules are compiled and run.
#[verifier::external_type_specification]
#[verifier::external_body]
pub struct ExEngine(wasmtime::Engine);

/// `wasmtime::component::Component`, a compiled and validated module.
#[verifier::external_type_specification]
#[verifier::external_body]
pub struct ExComponent(wasmtime::component::Component);

/// Whether settings ask for the component model: whether it is among the
/// features that they switch on.
pub uninterp spec fn asks_for_components(config: wasmtime::Config) -> bool;

/// Whether an engine accepts the component format: whether the component
/// model is among its features.
pub uninterp spec fn accepts_components(engine: wasmtime::Engine) -> bool;

/// `wasmtime::Config::new` makes the default settings. Nothing is claimed
/// of them.
pub assume_specification[ wasmtime::Config::new ]() -> (config: wasmtime::Config)
;

/// `wasmtime::Config::wasm_component_model` switches the component model on
/// or off in the settings and hands the same settings back. The contract
/// claims that the settings then ask for the component model exactly if
/// `enable` says so, and that what is handed back is the settings
/// themselves.
pub assume_specification[ wasmtime::Config::wasm_component_model ](
    config: &mut wasmtime::Config,
    enable: bool,
) -> (same: &mut wasmtime::Config)
    ensures
        asks_for_components(*same) == enable,
        *final(config) == *final(same),
;

/// `wasmtime::Engine::new` makes an engine from settings, or fails where
/// the settings cannot be met. The contract claims that an engine made from
/// settings that ask for the component model accepts the component format;
/// it claims nothing of whether an engine is made.
pub assume_specification[ wasmtime::Engine::new ](config: &wasmtime::Config) -> (result: Result<
    wasmtime::Engine,
    wasmtime::Error,
>)
    ensures
        result matches Ok(engine) ==> (asks_for_components(*config) ==> accepts_components(
            engine,
        )),
;

/// The names of the exports that a compiled module declares, in the order
/// in which it declares them.
pub uninterp spec fn declared_exports(component: wasmtime::component::Component) -> Seq<Seq<char>>;

/// Walks `wasmtime::component::Component::component_type` and, on the type
/// that it gives, `exports`, and collects the name of each export. The
/// contract claims that the names are those that the module declares, in
/// its order; no code of the module runs.
#[verifier::external_body]
fn export_names(engine: &wasmtime::Engine, component: &wasmtime::component::Component) -> (names:
    Vec<String>)
    ensures
        string_views(names@) == declared_exports(*component),
{
    component.component_type().exports(engine).map(|(name, _)| name.to_string()).collect()
}

/// The role that a module declares.
#[derive(Clone, Copy, Debug, PartialEq, Eq, Structural)]
pub enum ComponentKind {
    /// The module provides data types.
    Types,
    /// The module provides nodes.
    Nodes,
}

/// The kind that goes by the given name, if one does.
pub open spec fn kind_named(name: Seq<char>) -> Option<ComponentKind> {
    if name == TYPES_KIND@ {
        Some(ComponentKind::Types)
    } else if name == NODES_KIND@ {
        Some(ComponentKind::Nodes)
    } else {
        None
    }
}

/// The kind that an export of the given name declares, if it declares one.
pub open spec fn kind_of_name(name: Seq<char>) -> Option<ComponentKind> {
    if name == TYPES_INTERFACE@ {
        Some(ComponentKind::Types)
    } else if name == NODES_INTERFACE@ {
        Some(ComponentKind::Nodes)
    } else {
        None
    }
}

/// Whether `place` is that of the first name that declares a kind.
pub open spec fn is_first_known(names: Seq<Seq<char>>, place: int) -> bool {
    &&& 0 <= place < names.len()
    &&& kind_of_name(names[place]) is Some
    &&& forall|i: int| 0 <= i < place ==> kind_of_name(#[trigger] names[i]) is None
}

/// The kind of a module with the given exports: that of the first export
/// that declares one, or none if no export does.
pub open spec fn kind_of_exports(names: Seq<Seq<char>>) -> Option<ComponentKind> {
    if exists|place: int| is_first_known(names, place) {
        kind_of_name(names[choose|place: int| is_first_known(names, place)])
    } else {
        None
    }
}

/// The error for a module that declares neither interface.
pub open spec fn unknown_kind() -> PluginManagerErrorView {
    PluginManagerErrorView::UnknownKindError {
        message: "Component does not export "@ + TYPES_INTERFACE@ + " or "@ + NODES_INTERFACE@
            + " interface"@,
    }
}

/// The first name that declares a kind is the only first one.
proof fn lemma_first_known_is_unique(names: Seq<Seq<char>>, place: int)
    requires
        is_first_known(names, place),
    ensures
        kind_of_exports(names) == kind_of_name(names[place]),
{
    let chosen = choose|other: int| is_first_known(names, other);
    if chosen < place {
        assert(kind_of_name(names[chosen]) is None);
    }
    if place < chosen {
        assert(kind_of_name(names[place]) is None);
    }
}

impl ComponentKind {
    /// The kind that goes by `name`: `types` or `nodes`, and nothing else.
    pub fn from_name(name: &str) -> (kind: Option<ComponentKind>)
        ensures
            kind == kind_named(name@),
    {
        let given = String::from_str(name);
        if given == String::from_str(TYPES_KIND) {
            Some(ComponentKind::Types)
        } else if given == String::from_str(NODES_KIND) {
            Some(ComponentKind::Nodes)
        } else {
            None
        }
    }

    /// The name of the kind: `types` or `nodes`.
    pub fn as_str(&self) -> (name: &'static str)
        ensures
            name@ == match self {
                ComponentKind::Types => TYPES_KIND@,
                ComponentKind::Nodes => NODES_KIND@,
            },
    {
        match self {
            ComponentKind::Types => TYPES_KIND,
            ComponentKind::Nodes => NODES_KIND,
        }
    }
}

/// Classifies a module by the names of its exports: the first name that is
/// one of the two known interfaces decides.
pub fn resolve_kind(names: &Vec<String>) -> (kind: Option<ComponentKind>)
    ensures
        kind == kind_of_exports(string_views(names@)),
{
    let types_interface = String::from_str(TYPES_INTERFACE);
    let nodes_interface = String::from_str(NODES_INTERFACE);
    let mut i: usize = 0;
    while i < names.len()
        invariant
            i <= names.len(),
            types_interface@ == TYPES_INTERFACE@,
            nodes_interface@ == NODES_INTERFACE@,
            forall|k: int| 0 <= k < i ==> kind_of_name(#[trigger] string_views(names@)[k]) is None,
        decreases names.len() - i,
    {
        assert(string_views(names@)[i as int] == names@[i as int]@);
        if names[i] == types_interface {
            proof {
                lemma_first_known_is_unique(string_views(names@), i as int);
            }
            return Some(ComponentKind::Types);
        }
        if names[i] == nodes_interface {
            proof {
                lemma_first_known_is_unique(string_views(names@), i as int);
            }
            return Some(ComponentKind::Nodes);
        }
        i += 1;
    }
    proof {
        let views = string_views(names@);
        if exists|place: int| is_first_known(views, place) {
            let place = choose|place: int| is_first_known(views, place);
            assert(kind_of_name(views[place]) is None);
        }
    }
    None
}

/// Owns the engine in which modules are compiled and run.
pub struct Loader {
    engine: wasmtime::Engine,
}

impl Loader {
    /// Makes a loader whose engine accepts the component format. Whether
    /// the engine can be made is for the engine to say; if it cannot, the
    /// sandbox error wraps the engine's diagnostic.
    /// [`Loader::with_engine`] says what becomes of either outcome.
    pub fn new() -> (result: Result<Self, PluginManagerError>)
        ensures
            match result {
                Ok(loader) => accepts_components(loader.spec_engine()),
                Err(failure) => exists|cause: wasmtime::Error| #[trigger]
                    is_sandbox_error(failure@, cause),
            },
    {
        let mut config = wasmtime::Config::new();
        config.wasm_component_model(true);
        Self::with_engine(wasmtime::Engine::new(&config))
    }

    /// Makes a loader of the outcome of making an engine: the loader that
    /// owns the engine, or a sandbox error that wraps the engine's
    /// diagnostic.
    pub fn with_engine(outcome: Result<wasmtime::Engine, wasmtime::Error>) -> (result: Result<
        Self,
        PluginManagerError,
    >)
        ensures
            match outcome {
                Ok(engine) => result matches Ok(loader) && loader.spec_engine() == engine,
                Err(cause) => result matches Err(failure) && is_sandbox_error(failure@, cause),
            },
    {
        match outcome {
            Ok(engine) => Ok(Loader { engine }),
            Err(cause) => Err(PluginManagerError::from_wasmtime(cause)),
        }
    }

    /// The engine, for compiling and running modules in it.
    pub fn engine(&self) -> (engine: &wasmtime::Engine)
        ensures
            *engine == self.spec_engine(),
    {
        &self.engine
    }

    /// The engine of the loader.
    pub closed spec fn spec_engine(&self) -> wasmtime::Engine {
        self.engine
    }

    /// Turns the outcome of compiling the file at `path` into this
    /// library's result: the module itself, or a load error that carries
    /// the path and the engine's diagnostic.
    pub fn load_component(
        &self,
        path: &str,
        outcome: Result<wasmtime::component::Component, wasmtime::Error>,
    ) -> (result: Result<wasmtime::component::Component, PluginManagerError>)
        ensures
            match outcome {
                Ok(component) => result matches Ok(loaded) && loaded == component,
                Err(cause) => result matches Err(failure) && is_load_error(failure@, path@, cause),
            },
    {
        match outcome {
            Ok(component) => Ok(component),
            Err(cause) => Err(PluginManagerError::from_load(path, cause)),
        }
    }

    /// Turns the outcome of asking a module for its data types into this
    /// library's result: the complete list, or a sandbox error that wraps
    /// the engine's diagnostic.
    pub fn discover_types(&self, outcome: Result<Vec<TypeInfo>, wasmtime::Error>) -> (result:
        Result<Vec<TypeInfo>, PluginManagerError>)
        ensures
            match outcome {
                Ok(types) => result matches Ok(listed) && listed == types,
                Err(cause) => result matches Err(failure) && is_sandbox_error(failure@, cause),
            },
    {
        match outcome {
            Ok(types) => Ok(types),
            Err(cause) => Err(PluginManagerError::from_wasmtime(cause)),
        }
    }

    /// Turns the outcome of asking a module for its nodes into this
    /// library's result: the complete list, or a sandbox error that wraps
    /// the engine's diagnostic.
    pub fn discover_nodes(&self, outcome: Result<Vec<NodeInfo>, wasmtime::Error>) -> (result:
        Result<Vec<NodeInfo>, PluginManagerError>)
        ensures
            match outcome {
                Ok(nodes) => result matches Ok(listed) && listed == nodes,
                Err(cause) => result matches Err(failure) && is_sandbox_error(failure@, cause),
            },
    {
        match outcome {
            Ok(nodes) => Ok(nodes),
            Err(cause) => Err(PluginManagerError::from_wasmtime(cause)),
        }
    }

    /// Classifies a compiled module by the exports that it declares, without
    /// running any of its code: the first export that is one of the two
    /// known interfaces decides, and a module with neither is refused.
    pub fn determine_component_kind(&self, component: &wasmtime::component::Component) -> (result:
        Result<ComponentKind, PluginManagerError>)
        ensures
            match kind_of_exports(declared_exports(*component)) {
                Some(kind) => result matches Ok(found) && found == kind,
                None => result matches Err(failure) && failure@ == unknown_kind(),
            },
    {
        let names = export_names(&self.engine, component);
        match resolve_kind(&names) {
            Some(kind) => Ok(kind),
            None => Err(
                PluginManagerError::UnknownKindError {
                    message: String::from_str("Component does not export ").concat(
                        TYPES_INTERFACE,
                    ).concat(" or ").concat(NODES_INTERFACE).concat(" interface"),
                },
            ),
        }
    }
}

} // verus!
