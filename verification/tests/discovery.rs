use cognexus_plugins::nodes::list_nodes;
use cognexus_plugins::plugin_manager::store::NoticeLevel;
use cognexus_plugins::plugin_manager::scanner::DirEntry;
use cognexus_plugins::plugin_manager::{
    ComponentKind, DiscoveryAction, DiscoveryEvent, PluginManager, PluginManagerError, Registry,
    RegistryInner,
};
use cognexus_plugins::types::list_types;
use cognexus_plugins::wit::{NodeInfo, TypeInfo};
use std::io::{Error, ErrorKind};
use wasmtime::component::Component;

/// The binary of a component that exports one empty instance under each of
/// the given names, in their order.
fn component_exporting(names: &[&str]) -> Vec<u8> {
    let mut bytes = vec![0x00, 0x61, 0x73, 0x6d, 0x0d, 0x00, 0x01, 0x00];
    for (index, name) in names.iter().enumerate() {
        bytes.extend_from_slice(&[0x05, 0x03, 0x01, 0x01, 0x00]);
        let mut section = vec![0x01, 0x00, name.len() as u8];
        section.extend_from_slice(name.as_bytes());
        section.extend_from_slice(&[0x05, index as u8, 0x00]);
        bytes.push(0x0b);
        bytes.push(section.len() as u8);
        bytes.extend_from_slice(&section);
    }
    bytes
}

fn file(path: &str) -> Result<DirEntry, Error> {
    Ok(DirEntry { path: String::from(path), is_file: true, extension: Some(String::from("wasm")) })
}

fn other_file(path: &str) -> Result<DirEntry, Error> {
    Ok(DirEntry { path: String::from(path), is_file: true, extension: Some(String::from("txt")) })
}

fn type_info(id: &str, name: &str, version: &str) -> TypeInfo {
    TypeInfo {
        id: String::from(id),
        name: String::from(name),
        description: String::from("..."),
        version: String::from(version),
    }
}

fn node_info(id: &str, name: &str, version: &str) -> NodeInfo {
    NodeInfo {
        id: String::from(id),
        name: String::from(name),
        description: String::from("..."),
        version: String::from(version),
        input_ports: vec![],
        output_ports: vec![],
    }
}

/// What a module file holds: the exports it declares and what it reports
/// when asked.
enum Module {
    Types(Vec<TypeInfo>),
    Nodes(Vec<NodeInfo>),
    Malformed,
    Mute,
    FailingTypes,
    FailingNodes,
}

/// Drives a pass over the given module files, as a caller would, and
/// returns how it ended, which files were loaded, and how many notices of
/// each level were handed out.
fn run(
    manager: &mut PluginManager,
    registry: &mut RegistryInner,
    mut files: Vec<(&str, Module)>,
) -> (Result<(), PluginManagerError>, Vec<String>, usize, usize) {
    let mut loaded = Vec::new();
    let mut warnings = 0;
    let mut routine = 0;
    let mut current = 0;
    let mut event = DiscoveryEvent::Start;
    loop {
        let step = manager.discover_plugins(registry, event);
        for notice in &step.notices {
            match notice.level {
                NoticeLevel::Warn => warnings += 1,
                NoticeLevel::Debug => routine += 1,
            }
        }
        event = match step.action {
            DiscoveryAction::Scan { dir } => {
                assert_eq!(dir, "plugins");
                DiscoveryEvent::Scanned(Ok(files.iter().map(|(path, _)| file(path)).collect()))
            }
            DiscoveryAction::Load { path } => {
                current = files.iter().position(|(name, _)| *name == path).unwrap();
                loaded.push(path);
                let engine = manager.loader().engine();
                DiscoveryEvent::Loaded(match &files[current].1 {
                    Module::Types(_) | Module::FailingTypes => {
                        Component::new(engine, component_exporting(&["cognexus:plugin/types"]))
                    }
                    Module::Nodes(_) | Module::FailingNodes => {
                        Component::new(engine, component_exporting(&["cognexus:plugin/nodes"]))
                    }
                    Module::Mute => Component::new(engine, component_exporting(&["other:pkg/thing"])),
                    Module::Malformed => Component::new(engine, b"garbage"),
                })
            }
            DiscoveryAction::ListTypes { component } => {
                assert_eq!(
                    manager.loader().determine_component_kind(&component).unwrap(),
                    ComponentKind::Types
                );
                match std::mem::replace(&mut files[current].1, Module::Mute) {
                    Module::Types(types) => DiscoveryEvent::TypesListed(Ok(types)),
                    Module::FailingTypes => {
                        DiscoveryEvent::TypesListed(Err(wasmtime::Error::msg("call failed")))
                    }
                    _ => panic!("asked a module for types that provides none"),
                }
            }
            DiscoveryAction::ListNodes { component } => {
                assert_eq!(
                    manager.loader().determine_component_kind(&component).unwrap(),
                    ComponentKind::Nodes
                );
                match std::mem::replace(&mut files[current].1, Module::Mute) {
                    Module::Nodes(nodes) => DiscoveryEvent::NodesListed(Ok(nodes)),
                    Module::FailingNodes => {
                        DiscoveryEvent::NodesListed(Err(wasmtime::Error::msg("instantiation failed")))
                    }
                    _ => panic!("asked a module for nodes that provides none"),
                }
            }
            DiscoveryAction::Finished(result) => return (result, loaded, warnings, routine),
            DiscoveryAction::Unexpected => panic!("the pass did not expect its own answer"),
        };
    }
}

fn manager() -> PluginManager {
    PluginManager::new(String::from("plugins")).unwrap()
}

#[test]
fn a_manager_uses_the_loader_it_is_given() {
    let loader = cognexus_plugins::plugin_manager::Loader::new().unwrap();
    let mut manager = PluginManager::with_loader(String::from("elsewhere"), loader);
    let mut registry = RegistryInner::default();
    let step = manager.discover_plugins(&mut registry, DiscoveryEvent::Start);
    assert!(matches!(step.action, DiscoveryAction::Scan { ref dir } if dir == "elsewhere"));
    assert!(Component::new(manager.loader().engine(), component_exporting(&[])).is_ok());
}

#[test]
fn a_pass_registers_one_entry_per_well_formed_module() {
    let mut manager = manager();
    let mut registry = RegistryInner::default();
    let files = vec![
        ("a.wasm", Module::Types(vec![type_info("t-a", "A", "1.0.0")])),
        ("b.wasm", Module::Nodes(vec![node_info("n-b", "B", "1.0.0")])),
        ("c.wasm", Module::Types(vec![type_info("t-c", "C", "1.0.0")])),
        ("d.wasm", Module::Nodes(vec![node_info("n-d", "D", "1.0.0")])),
        ("e.wasm", Module::Nodes(vec![node_info("n-e", "E", "1.0.0")])),
    ];
    let (result, loaded, warnings, routine) = run(&mut manager, &mut registry, files);
    assert!(result.is_ok());
    assert_eq!(loaded, vec!["a.wasm", "b.wasm", "c.wasm", "d.wasm", "e.wasm"]);
    assert_eq!(registry.list_types().len() + registry.list_nodes().len(), 5);
    assert_eq!(registry.list_types().len(), 2);
    assert_eq!(registry.list_nodes().len(), 3);
    assert_eq!(warnings, 0);
    assert_eq!(routine, 5);
    for id in ["t-a", "t-c"] {
        assert!(registry.get_type(id).is_some());
    }
    for id in ["n-b", "n-d", "n-e"] {
        assert!(registry.get_node(id).is_some());
    }
}

#[test]
fn two_modules_with_one_identifier_leave_the_second() {
    let mut manager = manager();
    let mut registry = RegistryInner::default();
    let files = vec![
        ("first.wasm", Module::Types(vec![type_info("shared", "First", "1.0.0")])),
        ("second.wasm", Module::Types(vec![type_info("shared", "Second", "2.0.0")])),
    ];
    let (result, loaded, warnings, routine) = run(&mut manager, &mut registry, files);
    assert!(result.is_ok());
    assert_eq!(loaded.len(), 2);
    let types = registry.list_types();
    assert_eq!(types.len(), 1);
    assert_eq!(types[0].id, "shared");
    assert_eq!(types[0].name, "Second");
    assert_eq!(types[0].version, "2.0.0");
    assert_eq!(warnings, 1);
    assert_eq!(routine, 1);
}

#[test]
fn the_replace_warning_names_both_versions() {
    let mut manager = manager();
    let mut registry = RegistryInner::default();
    let engine = manager.loader().engine().clone();
    let nodes = || Component::new(&engine, component_exporting(&["cognexus:plugin/nodes"]));
    manager.discover_plugins(&mut registry, DiscoveryEvent::Start);
    manager.discover_plugins(
        &mut registry,
        DiscoveryEvent::Scanned(Ok(vec![file("one.wasm"), file("two.wasm")])),
    );
    manager.discover_plugins(&mut registry, DiscoveryEvent::Loaded(nodes()));
    let step = manager.discover_plugins(
        &mut registry,
        DiscoveryEvent::NodesListed(Ok(vec![node_info("n", "One", "0.1.0")])),
    );
    assert_eq!(step.notices.len(), 1);
    assert_eq!(step.notices[0].level, NoticeLevel::Debug);
    assert_eq!(step.notices[0].message, "Registering node: One (n)");
    manager.discover_plugins(&mut registry, DiscoveryEvent::Loaded(nodes()));
    let step = manager.discover_plugins(
        &mut registry,
        DiscoveryEvent::NodesListed(Ok(vec![node_info("n", "Two", "0.2.0")])),
    );
    assert!(matches!(step.action, DiscoveryAction::Finished(Ok(()))));
    assert_eq!(step.notices.len(), 1);
    assert_eq!(step.notices[0].level, NoticeLevel::Warn);
    assert_eq!(step.notices[0].message, "Replacing existing node 'n' (version 0.1.0) with version 0.2.0");
    assert_eq!(registry.get_node("n").unwrap().name, "Two");
}

#[test]
fn a_directory_without_modules_gives_an_empty_registry_and_no_error() {
    let mut manager = manager();
    let mut registry = RegistryInner::default();
    let (result, loaded, warnings, routine) = run(&mut manager, &mut registry, vec![]);
    assert!(result.is_ok());
    assert!(loaded.is_empty());
    assert!(registry.list_types().is_empty());
    assert!(registry.list_nodes().is_empty());
    assert_eq!((warnings, routine), (0, 0));
}

#[test]
fn a_directory_with_only_other_files_gives_an_empty_registry_and_no_error() {
    let mut manager = manager();
    let mut registry = RegistryInner::default();
    manager.discover_plugins(&mut registry, DiscoveryEvent::Start);
    let listing = vec![
        other_file("plugins/readme.txt"),
        Ok(DirEntry { path: String::from("plugins/sub.wasm"), is_file: false, extension: Some(String::from("wasm")) }),
    ];
    let step = manager.discover_plugins(&mut registry, DiscoveryEvent::Scanned(Ok(listing)));
    assert!(matches!(step.action, DiscoveryAction::Finished(Ok(()))));
    assert!(step.notices.is_empty());
    assert!(registry.list_types().is_empty());
    assert!(registry.list_nodes().is_empty());
}

#[test]
fn a_missing_directory_fails_the_pass_and_leaves_the_registry_untouched() {
    let mut manager = manager();
    let mut registry = RegistryInner::default();
    registry.register_type(cognexus_plugins::plugin_manager::wit_type_to_proto(type_info("kept", "Kept", "1.0.0")));
    let step = manager.discover_plugins(&mut registry, DiscoveryEvent::Start);
    assert!(matches!(step.action, DiscoveryAction::Scan { ref dir } if dir == "plugins"));
    let cause = Error::new(ErrorKind::NotFound, "No such file or directory");
    let step = manager.discover_plugins(&mut registry, DiscoveryEvent::Scanned(Err(cause)));
    match step.action {
        DiscoveryAction::Finished(Err(PluginManagerError::DirectoryError { message, source })) => {
            assert_eq!(message, "Failed to read plugin directory plugins: No such file or directory");
            assert_eq!(source.unwrap().kind(), ErrorKind::NotFound);
        }
        _ => panic!("the pass did not fail with a directory error"),
    }
    assert!(step.notices.is_empty());
    assert_eq!(registry.list_types().len(), 1);
    assert_eq!(registry.get_type("kept").unwrap().name, "Kept");
    assert!(registry.list_nodes().is_empty());
}

#[test]
fn an_unreadable_entry_fails_the_pass_before_any_module_is_loaded() {
    let mut manager = manager();
    let mut registry = RegistryInner::default();
    manager.discover_plugins(&mut registry, DiscoveryEvent::Start);
    let listing = vec![file("a.wasm"), Err(Error::new(ErrorKind::Other, "bad entry")), file("b.wasm")];
    let step = manager.discover_plugins(&mut registry, DiscoveryEvent::Scanned(Ok(listing)));
    assert!(matches!(
        step.action,
        DiscoveryAction::Finished(Err(PluginManagerError::DirectoryError { ref message, .. }))
            if message == "bad entry"
    ));
    assert!(registry.list_types().is_empty());
}

#[test]
fn a_module_of_unknown_kind_aborts_the_modules_after_it() {
    let mut manager = manager();
    let mut registry = RegistryInner::default();
    let files = vec![
        ("a.wasm", Module::Types(vec![type_info("t-a", "A", "1.0.0")])),
        ("b.wasm", Module::Mute),
        ("c.wasm", Module::Nodes(vec![node_info("n-c", "C", "1.0.0")])),
    ];
    let (result, loaded, _, _) = run(&mut manager, &mut registry, files);
    match result.unwrap_err() {
        PluginManagerError::UnknownKindError { message } => assert_eq!(
            message,
            "Component does not export cognexus:plugin/types or cognexus:plugin/nodes interface"
        ),
        other => panic!("unexpected error: {:?}", other),
    }
    assert_eq!(loaded, vec!["a.wasm", "b.wasm"]);
    assert_eq!(registry.list_types().len(), 1);
    assert!(registry.get_type("t-a").is_some());
    assert!(registry.list_nodes().is_empty());
}

#[test]
fn a_malformed_module_aborts_the_pass_with_its_path() {
    let mut manager = manager();
    let mut registry = RegistryInner::default();
    let files = vec![
        ("broken.wasm", Module::Malformed),
        ("fine.wasm", Module::Types(vec![type_info("t", "T", "1.0.0")])),
    ];
    let (result, loaded, _, _) = run(&mut manager, &mut registry, files);
    match result.unwrap_err() {
        PluginManagerError::LoadError { path, message, .. } => {
            assert_eq!(path, "broken.wasm");
            assert!(!message.is_empty());
        }
        other => panic!("unexpected error: {:?}", other),
    }
    assert_eq!(loaded, vec!["broken.wasm"]);
    assert!(registry.list_types().is_empty());
}

#[test]
fn a_failed_call_aborts_the_pass_without_partial_results() {
    let mut manager = manager();
    let mut registry = RegistryInner::default();
    let files = vec![
        ("a.wasm", Module::Nodes(vec![node_info("n-a", "A", "1.0.0")])),
        ("b.wasm", Module::FailingTypes),
        ("c.wasm", Module::Types(vec![type_info("t-c", "C", "1.0.0")])),
    ];
    let (result, loaded, _, _) = run(&mut manager, &mut registry, files);
    assert!(matches!(
        result.unwrap_err(),
        PluginManagerError::SandboxError { ref message, .. } if message == "call failed"
    ));
    assert_eq!(loaded, vec!["a.wasm", "b.wasm"]);
    assert_eq!(registry.list_nodes().len(), 1);
    assert!(registry.list_types().is_empty());

    let mut registry = RegistryInner::default();
    let files = vec![("b.wasm", Module::FailingNodes)];
    let (result, _, _, _) = run(&mut manager, &mut registry, files);
    assert!(matches!(
        result.unwrap_err(),
        PluginManagerError::SandboxError { ref message, .. } if message == "instantiation failed"
    ));
    assert!(registry.list_nodes().is_empty());
}

#[test]
fn after_a_failure_nothing_is_asked_for_until_a_new_pass_begins() {
    let mut manager = manager();
    let mut registry = RegistryInner::default();
    let files = vec![("b.wasm", Module::Mute), ("c.wasm", Module::Types(vec![type_info("t", "T", "1")]))];
    let (result, _, _, _) = run(&mut manager, &mut registry, files);
    assert!(result.is_err());
    let engine = manager.loader().engine().clone();
    let events = vec![
        DiscoveryEvent::Scanned(Ok(vec![file("x.wasm")])),
        DiscoveryEvent::Loaded(Component::new(&engine, component_exporting(&["cognexus:plugin/types"]))),
        DiscoveryEvent::TypesListed(Ok(vec![type_info("late", "Late", "1")])),
        DiscoveryEvent::NodesListed(Ok(vec![node_info("late", "Late", "1")])),
    ];
    for event in events {
        let step = manager.discover_plugins(&mut registry, event);
        assert!(matches!(step.action, DiscoveryAction::Unexpected));
        assert!(step.notices.is_empty());
    }
    assert!(registry.list_types().is_empty());
    assert!(registry.list_nodes().is_empty());

    let files = vec![("c.wasm", Module::Types(vec![type_info("t", "T", "1")]))];
    let (result, loaded, _, _) = run(&mut manager, &mut registry, files);
    assert!(result.is_ok());
    assert_eq!(loaded, vec!["c.wasm"]);
    assert_eq!(registry.list_types().len(), 1);
}

#[test]
fn an_answer_to_another_question_changes_nothing() {
    let mut manager = manager();
    let mut registry = RegistryInner::default();
    manager.discover_plugins(&mut registry, DiscoveryEvent::Start);
    manager.discover_plugins(&mut registry, DiscoveryEvent::Scanned(Ok(vec![file("a.wasm")])));
    let step = manager.discover_plugins(
        &mut registry,
        DiscoveryEvent::TypesListed(Ok(vec![type_info("early", "Early", "1")])),
    );
    assert!(matches!(step.action, DiscoveryAction::Unexpected));
    assert!(registry.list_types().is_empty());
    let engine = manager.loader().engine().clone();
    let step = manager.discover_plugins(
        &mut registry,
        DiscoveryEvent::Loaded(Component::new(&engine, component_exporting(&["cognexus:plugin/types"]))),
    );
    assert!(matches!(step.action, DiscoveryAction::ListTypes { .. }));
    let step = manager.discover_plugins(
        &mut registry,
        DiscoveryEvent::NodesListed(Ok(vec![node_info("wrong", "Wrong", "1")])),
    );
    assert!(matches!(step.action, DiscoveryAction::Unexpected));
    assert!(registry.list_nodes().is_empty());
    let step = manager.discover_plugins(
        &mut registry,
        DiscoveryEvent::TypesListed(Ok(vec![type_info("t", "T", "1")])),
    );
    assert!(matches!(step.action, DiscoveryAction::Finished(Ok(()))));
    assert_eq!(registry.list_types().len(), 1);
}

#[test]
fn a_module_may_report_several_records_or_none() {
    let mut manager = manager();
    let mut registry = RegistryInner::default();
    let files = vec![
        ("none.wasm", Module::Types(vec![])),
        (
            "many.wasm",
            Module::Nodes(vec![
                node_info("n1", "One", "1"),
                node_info("n2", "Two", "1"),
                node_info("n1", "One again", "2"),
            ]),
        ),
    ];
    let (result, _, warnings, routine) = run(&mut manager, &mut registry, files);
    assert!(result.is_ok());
    assert!(registry.list_types().is_empty());
    assert_eq!(registry.list_nodes().len(), 2);
    assert_eq!(registry.get_node("n1").unwrap().name, "One again");
    assert_eq!((warnings, routine), (1, 2));
}

#[test]
fn signal_types_and_flow_nodes_are_discovered() {
    let mut manager = manager();
    let mut registry = RegistryInner::default();
    let files = vec![
        ("plugins/signal-types.wasm", Module::Types(list_types())),
        ("plugins/flow-nodes.wasm", Module::Nodes(list_nodes())),
    ];
    let (result, loaded, warnings, _) = run(&mut manager, &mut registry, files);
    assert!(result.is_ok());
    assert_eq!(loaded, vec!["plugins/signal-types.wasm", "plugins/flow-nodes.wasm"]);
    assert_eq!(warnings, 0);

    let types = registry.list_types();
    assert_eq!(types.len(), 1);
    assert_eq!(types[0].id, "989bcbb2-b1a1-4f3f-be15-22ada278aedc");
    assert_eq!(types[0].name, "Signal");
    assert_eq!(types[0].description, "A flow control signal with no data payload");
    assert_eq!(types[0].version, "0.1.0");

    let nodes = registry.list_nodes();
    assert_eq!(nodes.len(), 2);
    let mut names: Vec<&str> = nodes.iter().map(|node| node.name.as_str()).collect();
    names.sort();
    assert_eq!(names, vec!["End", "Start"]);
    for node in &nodes {
        let found = registry.get_node(&node.id).unwrap();
        assert_eq!(found.id, node.id);
        assert_eq!(found.name, node.name);
        assert_eq!(found.input_ports.len() + found.output_ports.len(), 1);
    }
    let start = registry.get_node("40ebe0be-d2db-4eed-80f3-91267352ee42").unwrap();
    assert_eq!(start.name, "Start");
    assert_eq!(start.output_ports[0].data_type_id, types[0].id);
    let end = registry.get_node("e7a20e26-27ce-4d49-9759-50db835d46e6").unwrap();
    assert_eq!(end.name, "End");
    assert_eq!(end.input_ports[0].data_type_id, types[0].id);
}

#[test]
fn a_second_pass_scans_again() {
    let mut manager = manager();
    let mut registry = RegistryInner::default();
    let files = vec![("a.wasm", Module::Types(vec![type_info("t", "T", "1.0.0")]))];
    let (result, _, _, _) = run(&mut manager, &mut registry, files);
    assert!(result.is_ok());
    let files = vec![("a.wasm", Module::Types(vec![type_info("t", "T", "1.1.0")]))];
    let (result, loaded, warnings, _) = run(&mut manager, &mut registry, files);
    assert!(result.is_ok());
    assert_eq!(loaded, vec!["a.wasm"]);
    assert_eq!(warnings, 1);
    assert_eq!(registry.get_type("t").unwrap().version, "1.1.0");
}

#[test]
fn a_pass_runs_on_a_shared_registry_one_step_under_the_lock_at_a_time() {
    let mut manager = manager();
    let shared = Registry::default();
    let reader = shared.clone();
    let engine = manager.loader().engine().clone();
    let mut events = vec![
        DiscoveryEvent::Start,
        DiscoveryEvent::Scanned(Ok(vec![file("signal-types.wasm"), file("flow-nodes.wasm")])),
        DiscoveryEvent::Loaded(Component::new(&engine, component_exporting(&["cognexus:plugin/types"]))),
        DiscoveryEvent::TypesListed(Ok(list_types())),
        DiscoveryEvent::Loaded(Component::new(&engine, component_exporting(&["cognexus:plugin/nodes"]))),
        DiscoveryEvent::NodesListed(Ok(list_nodes())),
    ];
    events.reverse();
    let mut seen = Vec::new();
    while let Some(event) = events.pop() {
        let step = {
            let mut guard = shared.write_lock().unwrap();
            manager.discover_plugins(&mut guard, event)
        };
        seen.push(reader.list_types().unwrap().len() + reader.list_nodes().unwrap().len());
        if events.is_empty() {
            assert!(matches!(step.action, DiscoveryAction::Finished(Ok(()))));
        }
    }
    assert_eq!(seen, vec![0, 0, 0, 1, 1, 3]);
    assert_eq!(reader.get_type("989bcbb2-b1a1-4f3f-be15-22ada278aedc").unwrap().unwrap().name, "Signal");
    assert_eq!(reader.get_node("40ebe0be-d2db-4eed-80f3-91267352ee42").unwrap().unwrap().name, "Start");
    assert_eq!(reader.get_node("e7a20e26-27ce-4d49-9759-50db835d46e6").unwrap().unwrap().name, "End");
}
