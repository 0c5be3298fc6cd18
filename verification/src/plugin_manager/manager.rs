//! A discovery pass, as a machine that the caller drives.
//!
//! The pass itself touches neither the disk nor a sandbox. At each step it
//! takes what the caller found out, decides, and says what it needs next:
//! the listing of the directory, a module compiled from a file, or the
//! records that a module reports. The first failure ends the pass, and no
//! further module is asked for.
//!
//! A step works on the store itself. A caller whose registry is shared
//! takes its write lock for the step and lets it go before it does what the
//! step asked for, so that readers wait for no module.

use crate::plugin_manager::error::{
    is_directory_error,
    is_listing_error,
    is_load_error,
    is_sandbox_error,
    PluginManagerError,
};
use crate::plugin_manager::loader::{
    declared_exports,
    kind_of_exports,
    unknown_kind,
    ComponentKind,
    Loader,
};
use crate::plugin_manager::store::{
    node_notice,
    notice_views,
    type_notice,
    with_node,
    with_type,
    Notice,
    NoticeView,
    RegistryInner,
    RegistryView,
};
use crate::plugin_manager::scanner::{
    all_read,
    entries_read,
    is_first_unread,
    module_paths,
    scan_directory,
    string_views,
    DirEntry,
};
use crate::plugin_manager::translator::{
    node_to_proto,
    type_to_proto,
    wit_node_to_proto,
    wit_type_to_proto,
};
use crate::proto::{NodeDefinitionView, TypeDefinitionView};
use crate::wit::{node_info_views, type_info_views, NodeInfo, NodeInfoView, TypeInfo, TypeInfoView};
use vstd::prelude::*;

verus! {

/// What the caller found out for the pass.
pub enum DiscoveryEvent {
    /// A pass is to begin.
    Start,
    /// The directory was listed, or could not be; each entry was read, or could
    /// not be.
    Scanned(Result<Vec<Result<DirEntry, std::io::Error>>, std::io::Error>),
    /// The file asked for was compiled, or could not be.
    Loaded(Result<wasmtime::component::Component, wasmtime::Error>),
    /// The module reported its data types, or the call failed.
    TypesListed(Result<Vec<TypeInfo>, wasmtime::Error>),
    /// The module reported its nodes, or the call failed.
    NodesListed(Result<Vec<NodeInfo>, wasmtime::Error>),
}

/// What the pass needs next.
pub enum DiscoveryAction {
    /// List the directory `dir`.
    Scan { dir: String },
    /// Compile the file at `path`.
    Load { path: String },
    /// Instantiate `component` in a fresh sandbox and ask it for its data
    /// types.
    ListTypes { component: wasmtime::component::Component },
    /// Instantiate `component` in a fresh sandbox and ask it for its nodes.
    ListNodes { component: wasmtime::component::Component },
    /// The pass is over: every module was registered, or the first failure
    /// ended it.
    Finished(Result<(), PluginManagerError>),
    /// The event answers nothing that the pass asked for; nothing changed.
    Unexpected,
}

/// The outcome of one step: what is needed next, and what the registrations
/// of this step have to tell the operator, in their order.
pub struct DiscoveryStep {
    pub action: DiscoveryAction,
    pub notices: Vec<Notice>,
}

/// Where a pass stands.
enum Pass {
    Idle,
    Scanning,
    Loading { path: String, rest: Vec<String> },
    ListingTypes { path: String, rest: Vec<String> },
    ListingNodes { path: String, rest: Vec<String> },
}

/// Where a pass stands: between passes, waiting for the listing, or at the
/// module at `path`, with the modules in `rest` still to come in that
/// order.
pub enum PassView {
    Idle,
    Scanning,
    Loading { path: Seq<char>, rest: Seq<Seq<char>> },
    ListingTypes { path: Seq<char>, rest: Seq<Seq<char>> },
    ListingNodes { path: Seq<char>, rest: Seq<Seq<char>> },
}

impl View for Pass {
    type V = PassView;

    closed spec fn view(&self) -> PassView {
        match self {
            Pass::Idle => PassView::Idle,
            Pass::Scanning => PassView::Scanning,
            Pass::Loading { path, rest } => PassView::Loading {
                path: path@,
                rest: string_views(rest@),
            },
            Pass::ListingTypes { path, rest } => PassView::ListingTypes {
                path: path@,
                rest: string_views(rest@),
            },
            Pass::ListingNodes { path, rest } => PassView::ListingNodes {
                path: path@,
                rest: string_views(rest@),
            },
        }
    }
}

/// What one module reported.
pub enum ModuleRecords {
    Types(Seq<TypeInfoView>),
    Nodes(Seq<NodeInfoView>),
}

/// The type records after each of `reported` was translated and registered,
/// in order.
pub open spec fn with_types(types: Seq<TypeDefinitionView>, reported: Seq<TypeInfoView>) -> Seq<
    TypeDefinitionView,
>
    decreases reported.len(),
{
    if reported.len() == 0 {
        types
    } else {
        with_type(with_types(types, reported.drop_last()), type_to_proto(reported.last()))
    }
}

/// The node records after each of `reported` was translated and registered,
/// in order.
pub open spec fn with_nodes(nodes: Seq<NodeDefinitionView>, reported: Seq<NodeInfoView>) -> Seq<
    NodeDefinitionView,
>
    decreases reported.len(),
{
    if reported.len() == 0 {
        nodes
    } else {
        with_node(with_nodes(nodes, reported.drop_last()), node_to_proto(reported.last()))
    }
}

/// What registering each of `reported`, in order, tells the operator.
pub open spec fn type_notices(types: Seq<TypeDefinitionView>, reported: Seq<TypeInfoView>) -> Seq<
    NoticeView,
>
    decreases reported.len(),
{
    if reported.len() == 0 {
        Seq::empty()
    } else {
        type_notices(types, reported.drop_last()).push(
            type_notice(with_types(types, reported.drop_last()), type_to_proto(reported.last())),
        )
    }
}

/// What registering each of `reported`, in order, tells the operator.
pub open spec fn node_notices(nodes: Seq<NodeDefinitionView>, reported: Seq<NodeInfoView>) -> Seq<
    NoticeView,
>
    decreases reported.len(),
{
    if reported.len() == 0 {
        Seq::empty()
    } else {
        node_notices(nodes, reported.drop_last()).push(
            node_notice(with_nodes(nodes, reported.drop_last()), node_to_proto(reported.last())),
        )
    }
}

/// The registry after all that one module reported was registered.
pub open spec fn after_module(registry: RegistryView, module: ModuleRecords) -> RegistryView {
    match module {
        ModuleRecords::Types(reported) => RegistryView {
            types: with_types(registry.types, reported),
            nodes: registry.nodes,
        },
        ModuleRecords::Nodes(reported) => RegistryView {
            types: registry.types,
            nodes: with_nodes(registry.nodes, reported),
        },
    }
}

/// The registry after a pass in which the given modules reported, in order.
pub open spec fn after_modules(registry: RegistryView, modules: Seq<ModuleRecords>) -> RegistryView
    decreases modules.len(),
{
    if modules.len() == 0 {
        registry
    } else {
        after_module(after_modules(registry, modules.drop_last()), modules.last())
    }
}

/// What registering all that one module reported tells the operator.
pub open spec fn module_notices(registry: RegistryView, module: ModuleRecords) -> Seq<NoticeView> {
    match module {
        ModuleRecords::Types(reported) => type_notices(registry.types, reported),
        ModuleRecords::Nodes(reported) => node_notices(registry.nodes, reported),
    }
}

/// Where the pass stands once the modules at `paths` are all that is left:
/// at the first of them, or between passes if there is none.
pub open spec fn next_module(paths: Seq<Seq<char>>) -> PassView {
    if paths.len() == 0 {
        PassView::Idle
    } else {
        PassView::Loading { path: paths[0], rest: paths.skip(1) }
    }
}

/// Whether `action` is what the pass asks for on moving on to `pass`: the
/// module to load, or nothing more once all are done.
pub open spec fn moves_on(pass: PassView, action: DiscoveryAction) -> bool {
    match pass {
        PassView::Loading { path, rest } => action matches DiscoveryAction::Load { path: asked }
            && asked@ == path,
        PassView::Idle => action matches DiscoveryAction::Finished(Ok(_)),
        _ => false,
    }
}

/// Whether a step from `before` on `event` may end in `after` with
/// `action`, as far as the pass itself goes. What happens to the registry
/// is said by [`registers`].
pub open spec fn steps(
    dir: Seq<char>,
    before: PassView,
    event: DiscoveryEvent,
    after: PassView,
    action: DiscoveryAction,
) -> bool {
    match (event, before) {
        (DiscoveryEvent::Start, _) => after == PassView::Scanning && (
        action matches DiscoveryAction::Scan { dir: asked } && asked@ == dir),
        (DiscoveryEvent::Scanned(Err(cause)), PassView::Scanning) => after == PassView::Idle && (
        action matches DiscoveryAction::Finished(Err(failure)) && is_listing_error(
            failure@,
            dir,
            cause,
        )),
        (DiscoveryEvent::Scanned(Ok(entries)), PassView::Scanning) => if all_read(entries@) {
            after == next_module(module_paths(entries_read(entries@))) && moves_on(after, action)
        } else {
            after == PassView::Idle && (action matches DiscoveryAction::Finished(Err(failure))
                && exists|place: int|
                is_first_unread(entries@, place) && is_directory_error(
                    failure@,
                    entries@[place]->Err_0,
                ))
        },
        (DiscoveryEvent::Loaded(Err(cause)), PassView::Loading { path, rest }) => after
            == PassView::Idle && (action matches DiscoveryAction::Finished(Err(failure))
            && is_load_error(failure@, path, cause)),
        (DiscoveryEvent::Loaded(Ok(component)), PassView::Loading { path, rest }) => {
            match kind_of_exports(declared_exports(component)) {
                None => after == PassView::Idle && (
                action matches DiscoveryAction::Finished(Err(failure)) && failure@
                    == unknown_kind()),
                Some(ComponentKind::Types) => after == (PassView::ListingTypes { path, rest }) && (
                action matches DiscoveryAction::ListTypes { component: asked } && asked
                    == component),
                Some(ComponentKind::Nodes) => after == (PassView::ListingNodes { path, rest }) && (
                action matches DiscoveryAction::ListNodes { component: asked } && asked
                    == component),
            }
        },
        (DiscoveryEvent::TypesListed(Err(cause)), PassView::ListingTypes { path, rest }) => after
            == PassView::Idle && (action matches DiscoveryAction::Finished(Err(failure))
            && is_sandbox_error(failure@, cause)),
        (DiscoveryEvent::NodesListed(Err(cause)), PassView::ListingNodes { path, rest }) => after
            == PassView::Idle && (action matches DiscoveryAction::Finished(Err(failure))
            && is_sandbox_error(failure@, cause)),
        (DiscoveryEvent::TypesListed(Ok(reported)), PassView::ListingTypes { path, rest }) => after
            == next_module(rest) && moves_on(after, action),
        (DiscoveryEvent::NodesListed(Ok(reported)), PassView::ListingNodes { path, rest }) => after
            == next_module(rest) && moves_on(after, action),
        _ => after == before && action is Unexpected,
    }
}

/// What a module reported, where a step from `before` on `event` registers
/// anything: the records of a complete list that answers the question that
/// the pass had asked.
pub open spec fn reported_by(before: PassView, event: DiscoveryEvent) -> Option<ModuleRecords> {
    match (event, before) {
        (DiscoveryEvent::TypesListed(Ok(reported)), PassView::ListingTypes { path, rest }) => Some(
            ModuleRecords::Types(type_info_views(reported@)),
        ),
        (DiscoveryEvent::NodesListed(Ok(reported)), PassView::ListingNodes { path, rest }) => Some(
            ModuleRecords::Nodes(node_info_views(reported@)),
        ),
        _ => None,
    }
}

/// Whether a step from `before` on `event` may take the registry from
/// `registry` to `registered` with `notices`: a complete list is registered
/// record by record, and every other step leaves the registry alone.
pub open spec fn registers(
    before: PassView,
    event: DiscoveryEvent,
    registry: RegistryView,
    registered: RegistryView,
    notices: Seq<NoticeView>,
) -> bool {
    match reported_by(before, event) {
        Some(module) => registered == after_module(registry, module) && notices == module_notices(
            registry,
            module,
        ),
        None => registered == registry && notices == Seq::<NoticeView>::empty(),
    }
}

/// Drives discovery passes over one directory.
pub struct PluginManager {
    builtin_path: String,
    loader: Loader,
    pass: Pass,
}

impl PluginManager {
    /// The directory that passes scan.
    pub closed spec fn dir(&self) -> Seq<char> {
        self.builtin_path@
    }

    /// Where the current pass stands.
    pub closed spec fn pass(&self) -> PassView {
        self.pass@
    }

    /// A manager for the modules in `builtin_path`, with an engine of its
    /// own and no pass under way. Whether the engine can be made is for the
    /// engine to say.
    pub fn new(builtin_path: String) -> (result: Result<Self, PluginManagerError>)
        ensures
            match result {
                Ok(manager) => manager.dir() == builtin_path@ && manager.pass() == PassView::Idle,
                Err(failure) => failure@ is SandboxError,
            },
    {
        match Loader::new() {
            Ok(loader) => Ok(Self::with_loader(builtin_path, loader)),
            Err(failure) => Err(failure),
        }
    }

    /// A manager for the modules in `builtin_path` that compiles and runs
    /// them with `loader`, with no pass under way.
    pub fn with_loader(builtin_path: String, loader: Loader) -> (manager: Self)
        ensures
            manager.dir() == builtin_path@,
            manager.pass() == PassView::Idle,
            manager.spec_loader() == loader,
    {
        PluginManager { builtin_path, loader, pass: Pass::Idle }
    }

    /// The loader of the manager.
    pub closed spec fn spec_loader(&self) -> Loader {
        self.loader
    }

    /// The loader, whose engine compiles and runs the modules.
    pub fn loader(&self) -> (loader: &Loader)
        ensures
            *loader == self.spec_loader(),
    {
        &self.loader
    }

    /// Moves on to the first of `paths`, or ends the pass if there is none.
    fn move_on(&mut self, paths: Vec<String>) -> (action: DiscoveryAction)
        ensures
            final(self).dir() == old(self).dir(),
            final(self).spec_loader() == old(self).spec_loader(),
            final(self).pass() == next_module(string_views(paths@)),
            moves_on(final(self).pass(), action),
    {
        let mut rest = paths;
        if rest.len() == 0 {
            self.pass = Pass::Idle;
            DiscoveryAction::Finished(Ok(()))
        } else {
            let path = rest.remove(0);
            let asked = path.clone();
            assert(string_views(rest@) =~= string_views(paths@).skip(1));
            self.pass = Pass::Loading { path, rest };
            DiscoveryAction::Load { path: asked }
        }
    }

    /// Translates and registers the types that a module reported, in order.
    fn register_types(registry: &mut RegistryInner, reported: Vec<TypeInfo>) -> (notices: Vec<Notice>)
        ensures
            final(registry)@.types == with_types(old(registry)@.types, type_info_views(reported@)),
            final(registry)@.nodes == old(registry)@.nodes,
            notice_views(notices@) == type_notices(
                old(registry)@.types,
                type_info_views(reported@),
            ),
    {
        let ghost given = type_info_views(reported@);
        let mut notices: Vec<Notice> = Vec::new();
        assert(given.take(0) =~= Seq::<TypeInfoView>::empty());
        assert(notice_views(notices@) =~= Seq::<NoticeView>::empty());
        for info in iter: reported.into_iter()
            invariant
                iter.seq() == reported@,
                given == type_info_views(reported@),
                registry@.types == with_types(
                    old(registry)@.types,
                    given.take(iter.index() as int),
                ),
                registry@.nodes == old(registry)@.nodes,
                notice_views(notices@) == type_notices(
                    old(registry)@.types,
                    given.take(iter.index() as int),
                ),
        {
            proof {
                let longer = given.take(iter.index() + 1);
                assert(longer.drop_last() =~= given.take(iter.index() as int));
                assert(longer.last() == info@);
            }
            let ghost before = notice_views(notices@);
            let notice = registry.register_type(wit_type_to_proto(info));
            notices.push(notice);
            assert(notice_views(notices@) =~= before.push(notice@));
        }
        assert(given.take(reported@.len() as int) =~= given);
        notices
    }

    /// Translates and registers the nodes that a module reported, in order.
    fn register_nodes(registry: &mut RegistryInner, reported: Vec<NodeInfo>) -> (notices: Vec<Notice>)
        ensures
            final(registry)@.nodes == with_nodes(old(registry)@.nodes, node_info_views(reported@)),
            final(registry)@.types == old(registry)@.types,
            notice_views(notices@) == node_notices(
                old(registry)@.nodes,
                node_info_views(reported@),
            ),
    {
        let ghost given = node_info_views(reported@);
        let mut notices: Vec<Notice> = Vec::new();
        assert(given.take(0) =~= Seq::<NodeInfoView>::empty());
        assert(notice_views(notices@) =~= Seq::<NoticeView>::empty());
        for info in iter: reported.into_iter()
            invariant
                iter.seq() == reported@,
                given == node_info_views(reported@),
                registry@.nodes == with_nodes(
                    old(registry)@.nodes,
                    given.take(iter.index() as int),
                ),
                registry@.types == old(registry)@.types,
                notice_views(notices@) == node_notices(
                    old(registry)@.nodes,
                    given.take(iter.index() as int),
                ),
        {
            proof {
                let longer = given.take(iter.index() + 1);
                assert(longer.drop_last() =~= given.take(iter.index() as int));
                assert(longer.last() == info@);
            }
            let ghost before = notice_views(notices@);
            let notice = registry.register_node(wit_node_to_proto(info));
            notices.push(notice);
            assert(notice_views(notices@) =~= before.push(notice@));
        }
        assert(given.take(reported@.len() as int) =~= given);
        notices
    }

    /// Takes one step of a discovery pass: looks at what the caller found
    /// out, registers what a module reported, and says what is needed
    /// next. [`steps`] says how the pass moves and [`registers`] what
    /// becomes of the registry. The first failure ends the pass: the
    /// modules still to come are dropped, and the registry keeps what
    /// earlier modules registered.
    pub fn discover_plugins(&mut self, registry: &mut RegistryInner, event: DiscoveryEvent) -> (step:
        DiscoveryStep)
        ensures
            final(self).dir() == old(self).dir(),
            final(self).spec_loader() == old(self).spec_loader(),
            steps(old(self).dir(), old(self).pass(), event, final(self).pass(), step.action),
            registers(
                old(self).pass(),
                event,
                old(registry)@,
                final(registry)@,
                notice_views(step.notices@),
            ),
    {
        let mut pass = Pass::Idle;
        core::mem::swap(&mut self.pass, &mut pass);
        let mut notices: Vec<Notice> = Vec::new();
        assert(notice_views(notices@) =~= Seq::<NoticeView>::empty());
        let action = match (event, pass) {
            (DiscoveryEvent::Start, _) => {
                self.pass = Pass::Scanning;
                DiscoveryAction::Scan { dir: self.builtin_path.clone() }
            },
            (DiscoveryEvent::Scanned(listing), Pass::Scanning) => {
                match scan_directory(self.builtin_path.as_str(), listing) {
                    Ok(paths) => self.move_on(paths),
                    Err(failure) => DiscoveryAction::Finished(Err(failure)),
                }
            },
            (DiscoveryEvent::Loaded(outcome), Pass::Loading { path, rest }) => {
                match self.loader.load_component(path.as_str(), outcome) {
                    Err(failure) => DiscoveryAction::Finished(Err(failure)),
                    Ok(component) => match self.loader.determine_component_kind(&component) {
                        Err(failure) => DiscoveryAction::Finished(Err(failure)),
                        Ok(ComponentKind::Types) => {
                            self.pass = Pass::ListingTypes { path, rest };
                            DiscoveryAction::ListTypes { component }
                        },
                        Ok(ComponentKind::Nodes) => {
                            self.pass = Pass::ListingNodes { path, rest };
                            DiscoveryAction::ListNodes { component }
                        },
                    },
                }
            },
            (DiscoveryEvent::TypesListed(outcome), Pass::ListingTypes { path, rest }) => {
                match self.loader.discover_types(outcome) {
                    Err(failure) => DiscoveryAction::Finished(Err(failure)),
                    Ok(reported) => {
                        notices = Self::register_types(registry, reported);
                        self.move_on(rest)
                    },
                }
            },
            (DiscoveryEvent::NodesListed(outcome), Pass::ListingNodes { path, rest }) => {
                match self.loader.discover_nodes(outcome) {
                    Err(failure) => DiscoveryAction::Finished(Err(failure)),
                    Ok(reported) => {
                        notices = Self::register_nodes(registry, reported);
                        self.move_on(rest)
                    },
                }
            },
            (_, pass) => {
                self.pass = pass;
                DiscoveryAction::Unexpected
            },
        };
        DiscoveryStep { action, notices }
    }
}

} // verus!
