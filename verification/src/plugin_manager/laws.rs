//! What holds of discovery passes, whatever the modules and the caller do.
//!
//! A run is any sequence of steps of a pass: where the pass stood and what
//! the registry held before the first step and after each, the events that
//! the caller brought, and what each step answered.

use crate::plugin_manager::error::is_listing_error;
use crate::plugin_manager::loader::{declared_exports, kind_of_exports, unknown_kind};
use crate::plugin_manager::manager::{
    after_module,
    after_modules,
    next_module,
    registers,
    reported_by,
    steps,
    with_nodes,
    with_types,
    DiscoveryAction,
    DiscoveryEvent,
    ModuleRecords,
    PassView,
};
use crate::plugin_manager::store::{
    distinct,
    is_registered,
    lemma_with_node,
    lemma_with_type,
    node_ids,
    type_ids,
    well_formed,
    NoticeView,
    RegistryView,
};
use crate::plugin_manager::scanner::{all_read, entries_read, module_paths, DirEntry};
use crate::plugin_manager::translator::{node_to_proto, type_to_proto};
use crate::proto::{NodeDefinitionView, TypeDefinitionView};
use crate::wit::{NodeInfoView, TypeInfoView};
use vstd::prelude::*;

verus! {

/// A sequence of steps: `passes` and `registries` hold the state before the
/// first step and after each step, so one value more than there are events.
pub struct Run {
    pub passes: Seq<PassView>,
    pub registries: Seq<RegistryView>,
    pub events: Seq<DiscoveryEvent>,
    pub actions: Seq<DiscoveryAction>,
    pub notices: Seq<Seq<NoticeView>>,
}

/// Whether `run` is a run of a pass over the directory `dir`: each step
/// leads from one state to the next as [`steps`] and [`registers`] say.
pub open spec fn is_run(dir: Seq<char>, run: Run) -> bool {
    &&& run.passes.len() == run.events.len() + 1
    &&& run.registries.len() == run.events.len() + 1
    &&& run.actions.len() == run.events.len()
    &&& run.notices.len() == run.events.len()
    &&& forall|k: int|
        0 <= k < run.events.len() ==> steps(
            dir,
            run.passes[k],
            #[trigger] run.events[k],
            run.passes[k + 1],
            run.actions[k],
        ) && registers(
            run.passes[k],
            run.events[k],
            run.registries[k],
            run.registries[k + 1],
            run.notices[k],
        )
}

/// What the modules reported during the first `count` steps of `run`, one
/// entry for each complete list, in order.
pub open spec fn reported_during(run: Run, count: int) -> Seq<ModuleRecords>
    decreases count,
{
    if count <= 0 {
        Seq::empty()
    } else {
        match reported_by(run.passes[count - 1], run.events[count - 1]) {
            Some(module) => reported_during(run, count - 1).push(module),
            None => reported_during(run, count - 1),
        }
    }
}

/// How many records a registry holds, of both kinds together.
pub open spec fn entry_count(registry: RegistryView) -> nat {
    registry.types.len() + registry.nodes.len()
}

/// Whether a module reported exactly one record, under an identifier that
/// `registry` does not hold yet among the records of that kind.
pub open spec fn reports_one_new(registry: RegistryView, module: ModuleRecords) -> bool {
    match module {
        ModuleRecords::Types(reported) => reported.len() == 1 && !is_registered(
            type_ids(registry.types),
            reported[0].id,
        ),
        ModuleRecords::Nodes(reported) => reported.len() == 1 && !is_registered(
            node_ids(registry.nodes),
            reported[0].id,
        ),
    }
}

/// How many modules a pass that stands at `pass` has not finished.
pub open spec fn unfinished(pass: PassView) -> nat {
    match pass {
        PassView::Idle => 0nat,
        PassView::Scanning => 0nat,
        PassView::Loading { path, rest } => rest.len() + 1,
        PassView::ListingTypes { path, rest } => rest.len() + 1,
        PassView::ListingNodes { path, rest } => rest.len() + 1,
    }
}

/// Registering what modules report keeps the registry well formed.
pub proof fn lemma_after_modules_well_formed(registry: RegistryView, modules: Seq<ModuleRecords>)
    requires
        well_formed(registry),
    ensures
        well_formed(after_modules(registry, modules)),
    decreases modules.len(),
{
    if modules.len() > 0 {
        lemma_after_modules_well_formed(registry, modules.drop_last());
        lemma_after_module_well_formed(
            after_modules(registry, modules.drop_last()),
            modules.last(),
        );
    }
}

/// Registering what one module reports keeps the registry well formed.
pub proof fn lemma_after_module_well_formed(registry: RegistryView, module: ModuleRecords)
    requires
        well_formed(registry),
    ensures
        well_formed(after_module(registry, module)),
{
    match module {
        ModuleRecords::Types(reported) => {
            lemma_with_types_distinct(registry.types, reported);
        },
        ModuleRecords::Nodes(reported) => {
            lemma_with_nodes_distinct(registry.nodes, reported);
        },
    }
}

/// Registering what a module reports keeps the identifiers of types
/// distinct.
proof fn lemma_with_types_distinct(types: Seq<TypeDefinitionView>, reported: Seq<TypeInfoView>)
    requires
        distinct(type_ids(types)),
    ensures
        distinct(type_ids(with_types(types, reported))),
    decreases reported.len(),
{
    if reported.len() > 0 {
        lemma_with_types_distinct(types, reported.drop_last());
        lemma_with_type(with_types(types, reported.drop_last()), type_to_proto(reported.last()));
    }
}

/// Registering what a module reports keeps the identifiers of nodes
/// distinct.
proof fn lemma_with_nodes_distinct(nodes: Seq<NodeDefinitionView>, reported: Seq<NodeInfoView>)
    requires
        distinct(node_ids(nodes)),
    ensures
        distinct(node_ids(with_nodes(nodes, reported))),
    decreases reported.len(),
{
    if reported.len() > 0 {
        lemma_with_nodes_distinct(nodes, reported.drop_last());
        lemma_with_node(with_nodes(nodes, reported.drop_last()), node_to_proto(reported.last()));
    }
}

/// After any number of steps of a run, the registry holds what it held at
/// the start with all that the modules reported so far registered in order:
/// nothing else ever reaches the registry, and nothing is lost.
pub proof fn lemma_run_registers_what_was_reported(dir: Seq<char>, run: Run, count: int)
    requires
        is_run(dir, run),
        0 <= count <= run.events.len(),
    ensures
        run.registries[count] == after_modules(run.registries[0], reported_during(run, count)),
    decreases count,
{
    if count > 0 {
        lemma_run_registers_what_was_reported(dir, run, count - 1);
        let earlier = reported_during(run, count - 1);
        let event = run.events[count - 1];
        match reported_by(run.passes[count - 1], event) {
            Some(module) => {
                assert(earlier.push(module).drop_last() =~= earlier);
            },
            None => {},
        }
    }
}

/// One module, one entry: where each of the given modules reports exactly
/// one record, under an identifier that is not registered yet when its
/// turn comes, the registry grows by exactly one entry per module. Started
/// on an empty registry it ends with as many entries as there are modules.
pub proof fn lemma_one_entry_per_module(registry: RegistryView, modules: Seq<ModuleRecords>)
    requires
        well_formed(registry),
        forall|k: int|
            0 <= k < modules.len() ==> reports_one_new(
                after_modules(registry, modules.take(k)),
                #[trigger] modules[k],
            ),
    ensures
        entry_count(after_modules(registry, modules)) == entry_count(registry) + modules.len(),
        entry_count(registry) == 0 ==> entry_count(after_modules(registry, modules))
            == modules.len(),
    decreases modules.len(),
{
    if modules.len() > 0 {
        let earlier = modules.drop_last();
        assert(modules.take(modules.len() - 1) =~= earlier);
        assert forall|k: int| 0 <= k < earlier.len() implies reports_one_new(
            after_modules(registry, earlier.take(k)),
            #[trigger] earlier[k],
        ) by {
            assert(earlier.take(k) =~= modules.take(k));
            assert(earlier[k] == modules[k]);
        }
        lemma_one_entry_per_module(registry, earlier);
        lemma_after_modules_well_formed(registry, earlier);
        let before = after_modules(registry, earlier);
        assert(reports_one_new(before, modules[modules.len() - 1]));
        match modules.last() {
            ModuleRecords::Types(reported) => {
                assert(reported.drop_last() =~= Seq::<TypeInfoView>::empty());
                assert(with_types(before.types, reported.drop_last()) == before.types);
                assert(type_to_proto(reported.last()).id == reported[0].id);
                lemma_with_type(before.types, type_to_proto(reported.last()));
            },
            ModuleRecords::Nodes(reported) => {
                assert(reported.drop_last() =~= Seq::<NodeInfoView>::empty());
                assert(with_nodes(before.nodes, reported.drop_last()) == before.nodes);
                assert(node_to_proto(reported.last()).id == reported[0].id);
                lemma_with_node(before.nodes, node_to_proto(reported.last()));
            },
        }
    }
}

/// A pass that ends without error has asked every module of the directory
/// for its records, and got a complete list from each: in a run that begins
/// a pass, lists the directory, never begins another pass, and ends with
/// the answer that all is done, as many modules reported as the directory
/// holds module files.
pub proof fn lemma_finished_pass_reached_every_module(
    dir: Seq<char>,
    run: Run,
    entries: Vec<Result<DirEntry, std::io::Error>>,
)
    requires
        is_run(dir, run),
        run.events.len() >= 2,
        run.events[0] is Start,
        run.events[1] == DiscoveryEvent::Scanned(Ok(entries)),
        forall|k: int| 1 <= k < run.events.len() ==> !(#[trigger] run.events[k] is Start),
        run.actions.last() matches DiscoveryAction::Finished(Ok(_)),
    ensures
        all_read(entries@),
        reported_during(run, run.events.len() as int).len() == module_paths(
            entries_read(entries@),
        ).len(),
{
    let total = module_paths(entries_read(entries@)).len();
    let last = run.events.len() - 1;
    assert(steps(dir, run.passes[0], run.events[0], run.passes[1], run.actions[0]));
    assert(steps(dir, run.passes[1], run.events[1], run.passes[2], run.actions[1]));
    assert(steps(dir, run.passes[last], run.events[last], run.passes[last + 1], run.actions[last]));
    assert(reported_during(run, 2).len() == 0) by {
        assert(reported_during(run, 0).len() == 0);
        assert(reported_by(run.passes[0], run.events[0]) is None);
        assert(reported_during(run, 1).len() == 0);
        assert(reported_by(run.passes[1], run.events[1]) is None);
    }
    if last >= 2 {
        if !all_read(entries@) {
            lemma_pass_accounts_for_modules(dir, run, 0, last);
        } else {
            lemma_pass_accounts_for_modules(dir, run, total, last);
        }
    }
}

/// From the listing on, a pass has either ended or accounts for every
/// module: those that reported and those not finished are all there are.
proof fn lemma_pass_accounts_for_modules(dir: Seq<char>, run: Run, total: nat, count: int)
    requires
        is_run(dir, run),
        2 <= count <= run.events.len(),
        forall|k: int| 1 <= k < run.events.len() ==> !(#[trigger] run.events[k] is Start),
        run.passes[2] != PassView::Scanning,
        run.passes[2] == PassView::Idle || unfinished(run.passes[2]) == total,
        reported_during(run, 2).len() == 0,
    ensures
        run.passes[count] != PassView::Scanning,
        run.passes[count] == PassView::Idle || reported_during(run, count).len() + unfinished(
            run.passes[count],
        ) == total,
    decreases count,
{
    if count > 2 {
        lemma_pass_accounts_for_modules(dir, run, total, count - 1);
        let k = count - 1;
        assert(steps(dir, run.passes[k], run.events[k], run.passes[k + 1], run.actions[k]));
        match (run.events[k], run.passes[k]) {
            (DiscoveryEvent::TypesListed(Ok(reported)), PassView::ListingTypes { path, rest }) => {
                assert(unfinished(next_module(rest)) == rest.len());
            },
            (DiscoveryEvent::NodesListed(Ok(reported)), PassView::ListingNodes { path, rest }) => {
                assert(unfinished(next_module(rest)) == rest.len());
            },
            _ => {},
        }
    }
}

/// A pass over well-formed modules registers one entry per module: in a
/// run that begins a pass, lists the directory, never begins another pass
/// and ends with the answer that all is done, where each module reported
/// exactly one record under an identifier that was not registered yet when
/// its turn came, the registry has grown by as many entries as the
/// directory holds module files. A registry that was empty holds exactly
/// that many afterwards.
pub proof fn lemma_pass_registers_one_entry_per_module(
    dir: Seq<char>,
    run: Run,
    entries: Vec<Result<DirEntry, std::io::Error>>,
)
    requires
        is_run(dir, run),
        run.events.len() >= 2,
        run.events[0] is Start,
        run.events[1] == DiscoveryEvent::Scanned(Ok(entries)),
        forall|k: int| 1 <= k < run.events.len() ==> !(#[trigger] run.events[k] is Start),
        run.actions.last() matches DiscoveryAction::Finished(Ok(_)),
        well_formed(run.registries[0]),
        forall|k: int|
            0 <= k < reported_during(run, run.events.len() as int).len() ==> reports_one_new(
                after_modules(
                    run.registries[0],
                    reported_during(run, run.events.len() as int).take(k),
                ),
                #[trigger] reported_during(run, run.events.len() as int)[k],
            ),
    ensures
        entry_count(run.registries.last()) == entry_count(run.registries[0]) + module_paths(
            entries_read(entries@),
        ).len(),
        entry_count(run.registries[0]) == 0 ==> entry_count(run.registries.last()) == module_paths(
            entries_read(entries@),
        ).len(),
{
    let steps_taken = run.events.len() as int;
    lemma_finished_pass_reached_every_module(dir, run, entries);
    lemma_run_registers_what_was_reported(dir, run, steps_taken);
    lemma_one_entry_per_module(run.registries[0], reported_during(run, steps_taken));
}

/// A directory without module files: the pass ends at once and without
/// error, and the registry stays as it was, so an empty one stays empty.
pub proof fn lemma_directory_without_modules(
    dir: Seq<char>,
    entries: Vec<Result<DirEntry, std::io::Error>>,
    after: PassView,
    action: DiscoveryAction,
    registry: RegistryView,
    registered: RegistryView,
    notices: Seq<NoticeView>,
)
    requires
        all_read(entries@),
        module_paths(entries_read(entries@)).len() == 0,
        steps(dir, PassView::Scanning, DiscoveryEvent::Scanned(Ok(entries)), after, action),
        registers(
            PassView::Scanning,
            DiscoveryEvent::Scanned(Ok(entries)),
            registry,
            registered,
            notices,
        ),
    ensures
        after == PassView::Idle,
        action matches DiscoveryAction::Finished(Ok(_)),
        registered == registry,
        notices.len() == 0,
{
}

/// A directory that is missing or cannot be listed: the pass ends with a
/// directory error that carries the cause, and the registry is untouched.
pub proof fn lemma_unreadable_directory(
    dir: Seq<char>,
    cause: std::io::Error,
    after: PassView,
    action: DiscoveryAction,
    registry: RegistryView,
    registered: RegistryView,
    notices: Seq<NoticeView>,
)
    requires
        steps(dir, PassView::Scanning, DiscoveryEvent::Scanned(Err(cause)), after, action),
        registers(
            PassView::Scanning,
            DiscoveryEvent::Scanned(Err(cause)),
            registry,
            registered,
            notices,
        ),
    ensures
        after == PassView::Idle,
        action matches DiscoveryAction::Finished(Err(failure)) && is_listing_error(
            failure@,
            dir,
            cause,
        ),
        registered == registry,
        notices.len() == 0,
{
}

/// A module that exports neither known interface: the pass ends with the
/// error that says so, the modules that were still to come are dropped, and
/// the registry keeps exactly what it held before this module.
pub proof fn lemma_unknown_kind_ends_pass(
    dir: Seq<char>,
    path: Seq<char>,
    rest: Seq<Seq<char>>,
    component: wasmtime::component::Component,
    after: PassView,
    action: DiscoveryAction,
    registry: RegistryView,
    registered: RegistryView,
    notices: Seq<NoticeView>,
)
    requires
        kind_of_exports(declared_exports(component)) is None,
        steps(
            dir,
            PassView::Loading { path, rest },
            DiscoveryEvent::Loaded(Ok(component)),
            after,
            action,
        ),
        registers(
            PassView::Loading { path, rest },
            DiscoveryEvent::Loaded(Ok(component)),
            registry,
            registered,
            notices,
        ),
    ensures
        after == PassView::Idle,
        action matches DiscoveryAction::Finished(Err(failure)) && failure@ == unknown_kind(),
        registered == registry,
        notices.len() == 0,
{
}

/// The first failure ends a pass for good: after a step that answered with
/// an error, and until another pass is begun, every step answers that
/// nothing was asked for, no module is loaded or called, and the registry
/// stays as the failing step left it.
pub proof fn lemma_failure_ends_pass(dir: Seq<char>, run: Run, failed: int, later: int)
    requires
        is_run(dir, run),
        0 <= failed < later < run.events.len(),
        run.actions[failed] matches DiscoveryAction::Finished(Err(_)),
        forall|k: int| failed < k < run.events.len() ==> !(#[trigger] run.events[k] is Start),
    ensures
        run.actions[later] is Unexpected,
        run.passes[later + 1] == PassView::Idle,
        run.registries[later + 1] == run.registries[failed + 1],
    decreases later - failed,
{
    assert(steps(
        dir,
        run.passes[failed],
        run.events[failed],
        run.passes[failed + 1],
        run.actions[failed],
    ));
    assert(run.passes[failed + 1] == PassView::Idle);
    if failed + 1 < later {
        lemma_failure_ends_pass(dir, run, failed, later - 1);
    }
    assert(steps(
        dir,
        run.passes[later],
        run.events[later],
        run.passes[later + 1],
        run.actions[later],
    ));
    assert(registers(
        run.passes[later],
        run.events[later],
        run.registries[later],
        run.registries[later + 1],
        run.notices[later],
    ));
}

} // verus!
