use cognexus_plugins::plugin_manager::registry::lock_outcome;
use cognexus_plugins::plugin_manager::store::NoticeLevel;
use cognexus_plugins::plugin_manager::{PluginManagerError, Registry, RegistryInner};
use cognexus_plugins::proto::{Direction, NodeDefinition, PortSpec, TypeDefinition};

fn type_def(id: &str, name: &str, version: &str) -> TypeDefinition {
    TypeDefinition {
        id: String::from(id),
        name: String::from(name),
        description: format!("the {} type", name),
        version: String::from(version),
    }
}

fn node_def(id: &str, name: &str, version: &str, inputs: usize) -> NodeDefinition {
    NodeDefinition {
        id: String::from(id),
        name: String::from(name),
        description: format!("the {} node", name),
        version: String::from(version),
        input_ports: (0..inputs)
            .map(|index| PortSpec {
                id: format!("{}-in-{}", id, index),
                name: format!("in{}", index),
                direction: Direction::Input,
                data_type_id: String::from("t"),
            })
            .collect(),
        output_ports: vec![],
    }
}

#[test]
fn a_new_registry_is_empty() {
    let registry = RegistryInner::default();
    assert!(registry.list_types().is_empty());
    assert!(registry.list_nodes().is_empty());
    assert!(registry.get_type("anything").is_none());
    assert!(registry.get_node("anything").is_none());
    assert!(registry.get_type("").is_none());
}

#[test]
fn register_type_adds_and_announces() {
    let mut registry = RegistryInner::default();
    let notice = registry.register_type(type_def("t1", "Signal", "0.1.0"));
    assert_eq!(notice.level, NoticeLevel::Debug);
    assert_eq!(notice.message, "Registering type: Signal (t1)");
    let found = registry.get_type("t1").unwrap();
    assert_eq!(found.id, "t1");
    assert_eq!(found.name, "Signal");
    assert_eq!(found.description, "the Signal type");
    assert_eq!(found.version, "0.1.0");
    assert_eq!(registry.list_types().len(), 1);
    assert!(registry.list_nodes().is_empty());
}

#[test]
fn register_node_adds_and_announces() {
    let mut registry = RegistryInner::default();
    let notice = registry.register_node(node_def("n1", "Start", "0.1.0", 2));
    assert_eq!(notice.level, NoticeLevel::Debug);
    assert_eq!(notice.message, "Registering node: Start (n1)");
    let found = registry.get_node("n1").unwrap();
    assert_eq!(found.id, "n1");
    assert_eq!(found.name, "Start");
    assert_eq!(found.input_ports.len(), 2);
    assert_eq!(found.input_ports[1].id, "n1-in-1");
    assert_eq!(found.input_ports[1].direction, Direction::Input);
    assert!(found.output_ports.is_empty());
    assert_eq!(registry.list_nodes().len(), 1);
    assert!(registry.list_types().is_empty());
}

#[test]
fn registering_a_type_twice_keeps_the_second() {
    let mut registry = RegistryInner::default();
    registry.register_type(type_def("other", "Other", "1.0.0"));
    registry.register_type(type_def("t1", "Signal", "0.1.0"));
    let notice = registry.register_type(type_def("t1", "Signal II", "0.2.0"));
    assert_eq!(notice.level, NoticeLevel::Warn);
    assert_eq!(notice.message, "Replacing existing type 't1' (version 0.1.0) with version 0.2.0");
    let types = registry.list_types();
    assert_eq!(types.len(), 2);
    assert_eq!(types.iter().filter(|definition| definition.id == "t1").count(), 1);
    let found = registry.get_type("t1").unwrap();
    assert_eq!(found.name, "Signal II");
    assert_eq!(found.version, "0.2.0");
    assert_eq!(found.description, "the Signal II type");
    assert_eq!(registry.get_type("other").unwrap().name, "Other");
}

#[test]
fn registering_a_node_twice_keeps_the_second() {
    let mut registry = RegistryInner::default();
    registry.register_node(node_def("n1", "Start", "0.1.0", 1));
    registry.register_node(node_def("n2", "End", "0.1.0", 0));
    let notice = registry.register_node(node_def("n1", "Begin", "0.3.0", 3));
    assert_eq!(notice.level, NoticeLevel::Warn);
    assert_eq!(notice.message, "Replacing existing node 'n1' (version 0.1.0) with version 0.3.0");
    let nodes = registry.list_nodes();
    assert_eq!(nodes.len(), 2);
    assert_eq!(nodes.iter().filter(|definition| definition.id == "n1").count(), 1);
    let found = registry.get_node("n1").unwrap();
    assert_eq!(found.name, "Begin");
    assert_eq!(found.version, "0.3.0");
    assert_eq!(found.input_ports.len(), 3);
    assert_eq!(registry.get_node("n2").unwrap().name, "End");
}

#[test]
fn replacing_with_the_same_version_still_replaces() {
    let mut registry = RegistryInner::default();
    registry.register_type(type_def("t1", "Old", "1.0.0"));
    let notice = registry.register_type(type_def("t1", "New", "1.0.0"));
    assert_eq!(notice.level, NoticeLevel::Warn);
    assert_eq!(notice.message, "Replacing existing type 't1' (version 1.0.0) with version 1.0.0");
    assert_eq!(registry.get_type("t1").unwrap().name, "New");
}

#[test]
fn replacing_with_an_older_version_is_not_refused() {
    let mut registry = RegistryInner::default();
    registry.register_node(node_def("n1", "New", "2.0.0", 0));
    let notice = registry.register_node(node_def("n1", "Old", "1.0.0", 0));
    assert_eq!(notice.level, NoticeLevel::Warn);
    assert_eq!(registry.get_node("n1").unwrap().version, "1.0.0");
}

#[test]
fn types_and_nodes_do_not_share_identifiers() {
    let mut registry = RegistryInner::default();
    registry.register_type(type_def("same", "Type", "1.0.0"));
    let notice = registry.register_node(node_def("same", "Node", "1.0.0", 0));
    assert_eq!(notice.level, NoticeLevel::Debug);
    assert_eq!(registry.get_type("same").unwrap().name, "Type");
    assert_eq!(registry.get_node("same").unwrap().name, "Node");
    assert_eq!(registry.list_types().len(), 1);
    assert_eq!(registry.list_nodes().len(), 1);
}

#[test]
fn lookups_of_missing_identifiers_are_empty_not_errors() {
    let mut registry = RegistryInner::default();
    registry.register_type(type_def("t1", "Signal", "0.1.0"));
    assert!(registry.get_type("t2").is_none());
    assert!(registry.get_type("T1").is_none());
    assert!(registry.get_type("t1 ").is_none());
    assert!(registry.get_node("t1").is_none());
}

#[test]
fn lists_hold_every_record_once() {
    let mut registry = RegistryInner::default();
    for index in 0..10 {
        registry.register_type(type_def(&format!("t{}", index % 4), "T", &format!("0.0.{}", index)));
        registry.register_node(node_def(&format!("n{}", index % 3), "N", &format!("0.0.{}", index), 0));
    }
    let mut types: Vec<(String, String)> =
        registry.list_types().into_iter().map(|definition| (definition.id, definition.version)).collect();
    types.sort();
    assert_eq!(
        types,
        vec![
            (String::from("t0"), String::from("0.0.8")),
            (String::from("t1"), String::from("0.0.9")),
            (String::from("t2"), String::from("0.0.6")),
            (String::from("t3"), String::from("0.0.7")),
        ]
    );
    let mut nodes: Vec<(String, String)> =
        registry.list_nodes().into_iter().map(|definition| (definition.id, definition.version)).collect();
    nodes.sort();
    assert_eq!(
        nodes,
        vec![
            (String::from("n0"), String::from("0.0.9")),
            (String::from("n1"), String::from("0.0.7")),
            (String::from("n2"), String::from("0.0.8")),
        ]
    );
}

#[test]
fn repeated_lookups_agree() {
    let mut registry = RegistryInner::default();
    registry.register_type(type_def("t1", "Signal", "0.1.0"));
    let first = registry.get_type("t1").unwrap();
    for _ in 0..100 {
        let again = registry.get_type("t1").unwrap();
        assert_eq!(again.id, first.id);
        assert_eq!(again.name, first.name);
        assert_eq!(again.description, first.description);
        assert_eq!(again.version, first.version);
    }
}

#[test]
fn a_copy_handed_out_does_not_change_the_registry() {
    let mut registry = RegistryInner::default();
    registry.register_node(node_def("n1", "Start", "0.1.0", 1));
    let mut copy = registry.get_node("n1").unwrap();
    copy.name = String::from("changed");
    copy.input_ports.clear();
    let kept = registry.get_node("n1").unwrap();
    assert_eq!(kept.name, "Start");
    assert_eq!(kept.input_ports.len(), 1);
}

#[test]
fn empty_identifiers_are_registered_like_any_other() {
    let mut registry = RegistryInner::default();
    let notice = registry.register_type(type_def("", "Nameless", "0.0.0"));
    assert_eq!(notice.message, "Registering type: Nameless ()");
    assert_eq!(registry.get_type("").unwrap().name, "Nameless");
}

#[test]
fn a_granted_lock_is_handed_on() {
    assert_eq!(lock_outcome("read", Ok(7)).unwrap(), 7);
    assert_eq!(lock_outcome("write", Ok("guard")).unwrap(), "guard");
}

#[test]
fn a_poisoned_lock_is_reported_not_passed_on_as_a_panic() {
    let cause = std::sync::PoisonError::new(()).to_string();
    assert!(!cause.is_empty());
    match lock_outcome::<()>("read", Err(cause.clone())).unwrap_err() {
        PluginManagerError::LockError { message } => {
            assert_eq!(message, format!("Failed to acquire registry read lock: {}", cause))
        }
        other => panic!("unexpected error: {:?}", other),
    }
    match lock_outcome::<()>("write", Err(cause.clone())).unwrap_err() {
        PluginManagerError::LockError { message } => {
            assert_eq!(message, format!("Failed to acquire registry write lock: {}", cause))
        }
        other => panic!("unexpected error: {:?}", other),
    }
}

#[test]
fn lock_error_messages() {
    let error = lock_outcome::<u8>("read", Err(String::from("poisoned lock"))).unwrap_err();
    assert_eq!(error.to_string(), "Lock error: Failed to acquire registry read lock: poisoned lock");
    let error = lock_outcome::<u8>("write", Err(String::from("poisoned lock"))).unwrap_err();
    assert_eq!(error.to_string(), "Lock error: Failed to acquire registry write lock: poisoned lock");
}

#[test]
fn a_new_shared_registry_is_empty() {
    let registry = Registry::default();
    assert!(registry.list_types().unwrap().is_empty());
    assert!(registry.list_nodes().unwrap().is_empty());
    assert!(registry.get_type("anything").unwrap().is_none());
    assert!(registry.get_node("anything").unwrap().is_none());
}

#[test]
fn a_shared_registry_registers_through_a_shared_handle() {
    let registry = Registry::default();
    let notice = registry.register_type(type_def("t1", "Signal", "0.1.0")).unwrap();
    assert_eq!(notice.level, NoticeLevel::Debug);
    assert_eq!(notice.message, "Registering type: Signal (t1)");
    let notice = registry.register_node(node_def("n1", "Start", "0.1.0", 1)).unwrap();
    assert_eq!(notice.level, NoticeLevel::Debug);
    assert_eq!(notice.message, "Registering node: Start (n1)");
    assert_eq!(registry.get_type("t1").unwrap().unwrap().name, "Signal");
    assert_eq!(registry.get_node("n1").unwrap().unwrap().input_ports.len(), 1);
    assert_eq!(registry.list_types().unwrap().len(), 1);
    assert_eq!(registry.list_nodes().unwrap().len(), 1);
}

#[test]
fn a_shared_registry_keeps_the_last_registration() {
    let registry = Registry::default();
    registry.register_type(type_def("t1", "Signal", "0.1.0")).unwrap();
    let notice = registry.register_type(type_def("t1", "Signal II", "0.2.0")).unwrap();
    assert_eq!(notice.level, NoticeLevel::Warn);
    assert_eq!(notice.message, "Replacing existing type 't1' (version 0.1.0) with version 0.2.0");
    let types = registry.list_types().unwrap();
    assert_eq!(types.len(), 1);
    assert_eq!(types[0].name, "Signal II");
    registry.register_node(node_def("n1", "Start", "0.1.0", 0)).unwrap();
    let notice = registry.register_node(node_def("n1", "Begin", "0.3.0", 2)).unwrap();
    assert_eq!(notice.level, NoticeLevel::Warn);
    assert_eq!(notice.message, "Replacing existing node 'n1' (version 0.1.0) with version 0.3.0");
    assert_eq!(registry.get_node("n1").unwrap().unwrap().name, "Begin");
    assert_eq!(registry.list_nodes().unwrap().len(), 1);
}

#[test]
fn copies_of_a_handle_reach_the_same_store() {
    let registry = Registry::default();
    let other = registry.clone();
    registry.register_type(type_def("t1", "Signal", "0.1.0")).unwrap();
    assert_eq!(other.get_type("t1").unwrap().unwrap().name, "Signal");
    other.register_node(node_def("n1", "Start", "0.1.0", 0)).unwrap();
    assert_eq!(registry.list_nodes().unwrap().len(), 1);
    let fresh = Registry::default();
    assert!(fresh.get_type("t1").unwrap().is_none());
}

#[test]
fn readers_share_the_lock_and_see_the_same_records() {
    let registry = Registry::default();
    registry.register_type(type_def("t1", "Signal", "0.1.0")).unwrap();
    let first = registry.read_lock().unwrap();
    let second = registry.read_lock().unwrap();
    let one = first.get_type("t1").unwrap();
    let two = second.get_type("t1").unwrap();
    assert_eq!(one.name, two.name);
    assert_eq!(one.version, two.version);
    assert_eq!(first.list_types().len(), second.list_types().len());
}

#[test]
fn a_writer_changes_the_store_under_the_lock() {
    let registry = Registry::default();
    {
        let mut guard = registry.write_lock().unwrap();
        guard.register_type(type_def("t1", "Signal", "0.1.0"));
        guard.register_node(node_def("n1", "Start", "0.1.0", 0));
        assert_eq!(guard.list_types().len(), 1);
    }
    assert_eq!(registry.get_type("t1").unwrap().unwrap().name, "Signal");
    assert_eq!(registry.get_node("n1").unwrap().unwrap().name, "Start");
}

#[test]
fn a_list_is_a_snapshot_of_the_store_at_one_moment() {
    let registry = Registry::default();
    registry.register_type(type_def("t1", "One", "1.0.0")).unwrap();
    registry.register_type(type_def("t2", "Two", "1.0.0")).unwrap();
    registry.register_node(node_def("n1", "Node", "1.0.0", 1)).unwrap();
    let types = registry.list_types().unwrap();
    let nodes = registry.list_nodes().unwrap();
    registry.register_type(type_def("t3", "Three", "1.0.0")).unwrap();
    registry.register_type(type_def("t1", "One again", "2.0.0")).unwrap();
    registry.register_node(node_def("n2", "Other", "1.0.0", 0)).unwrap();
    let names: Vec<&str> = types.iter().map(|definition| definition.name.as_str()).collect();
    assert_eq!(names, vec!["One", "Two"]);
    assert_eq!(nodes.len(), 1);
    assert_eq!(nodes[0].id, "n1");
    assert_eq!(registry.list_types().unwrap().len(), 3);
    assert_eq!(registry.list_nodes().unwrap().len(), 2);
}

#[test]
fn a_shared_lookup_answers_as_the_store_under_the_lock_does() {
    let registry = Registry::default();
    registry.register_type(type_def("t1", "Signal", "0.1.0")).unwrap();
    registry.register_node(node_def("n1", "Start", "0.1.0", 2)).unwrap();
    let found_type = registry.get_type("t1").unwrap().unwrap();
    let found_node = registry.get_node("n1").unwrap().unwrap();
    assert!(registry.get_type("n1").unwrap().is_none());
    assert!(registry.get_node("t1").unwrap().is_none());
    let guard = registry.read_lock().unwrap();
    let held_type = guard.get_type("t1").unwrap();
    let held_node = guard.get_node("n1").unwrap();
    assert_eq!(found_type.name, held_type.name);
    assert_eq!(found_type.version, held_type.version);
    assert_eq!(found_node.name, held_node.name);
    assert_eq!(found_node.input_ports.len(), held_node.input_ports.len());
    assert!(guard.get_type("n1").is_none());
}
