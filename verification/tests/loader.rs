use cognexus_plugins::plugin_manager::loader::{
    resolve_kind, ComponentKind, NODES_INTERFACE, NODES_KIND, TYPES_INTERFACE, TYPES_KIND,
};
use cognexus_plugins::plugin_manager::{Loader, PluginManagerError};
use wasmtime::component::Component;

/// The binary of a component that exports one empty instance under each of
/// the given names, in their order.
fn component_exporting(names: &[&str]) -> Vec<u8> {
    let mut bytes = vec![0x00, 0x61, 0x73, 0x6d, 0x0d, 0x00, 0x01, 0x00];
    for (index, name) in names.iter().enumerate() {
        // An instance made of no exports.
        bytes.extend_from_slice(&[0x05, 0x03, 0x01, 0x01, 0x00]);
        // Its export under `name`.
        assert!(name.len() < 0x80);
        assert!(index < 0x80);
        let mut section = vec![0x01, 0x00, name.len() as u8];
        section.extend_from_slice(name.as_bytes());
        section.extend_from_slice(&[0x05, index as u8, 0x00]);
        assert!(section.len() < 0x80);
        bytes.push(0x0b);
        bytes.push(section.len() as u8);
        bytes.extend_from_slice(&section);
    }
    bytes
}

fn compiled(loader: &Loader, names: &[&str]) -> Component {
    Component::new(loader.engine(), component_exporting(names)).unwrap()
}

fn names(names: &[&str]) -> Vec<String> {
    names.iter().map(|name| name.to_string()).collect()
}

#[test]
fn kind_names_are_types_and_nodes() {
    assert_eq!(TYPES_KIND, "types");
    assert_eq!(NODES_KIND, "nodes");
    assert_eq!(ComponentKind::Types.as_str(), "types");
    assert_eq!(ComponentKind::Nodes.as_str(), "nodes");
    assert_eq!(TYPES_INTERFACE, "cognexus:plugin/types");
    assert_eq!(NODES_INTERFACE, "cognexus:plugin/nodes");
}

#[test]
fn resolve_kind_knows_the_two_interfaces() {
    assert_eq!(resolve_kind(&names(&["cognexus:plugin/types"])), Some(ComponentKind::Types));
    assert_eq!(resolve_kind(&names(&["cognexus:plugin/nodes"])), Some(ComponentKind::Nodes));
}

#[test]
fn resolve_kind_finds_none_without_a_known_interface() {
    assert_eq!(resolve_kind(&names(&[])), None);
    assert_eq!(resolve_kind(&names(&["other:thing/else", "types", "nodes"])), None);
    assert_eq!(resolve_kind(&names(&["cognexus:plugin/types@0.1.0"])), None);
    assert_eq!(resolve_kind(&names(&["Cognexus:Plugin/Types"])), None);
}

#[test]
fn resolve_kind_goes_by_the_first_known_interface() {
    assert_eq!(
        resolve_kind(&names(&["a:b/c", "cognexus:plugin/nodes", "cognexus:plugin/types"])),
        Some(ComponentKind::Nodes)
    );
    assert_eq!(
        resolve_kind(&names(&["cognexus:plugin/types", "cognexus:plugin/nodes"])),
        Some(ComponentKind::Types)
    );
}

#[test]
fn loader_makes_an_engine_that_compiles_components() {
    let loader = Loader::new().unwrap();
    assert!(Component::new(loader.engine(), component_exporting(&[])).is_ok());
}

#[test]
fn determine_component_kind_reads_the_declared_exports() {
    let loader = Loader::new().unwrap();
    let types = compiled(&loader, &["cognexus:plugin/types"]);
    assert_eq!(loader.determine_component_kind(&types).unwrap(), ComponentKind::Types);
    let nodes = compiled(&loader, &["cognexus:plugin/nodes"]);
    assert_eq!(loader.determine_component_kind(&nodes).unwrap(), ComponentKind::Nodes);
}

#[test]
fn determine_component_kind_goes_by_the_first_known_export() {
    let loader = Loader::new().unwrap();
    let both = compiled(&loader, &["other:pkg/thing", "cognexus:plugin/nodes", "cognexus:plugin/types"]);
    assert_eq!(loader.determine_component_kind(&both).unwrap(), ComponentKind::Nodes);
    let both = compiled(&loader, &["cognexus:plugin/types", "cognexus:plugin/nodes"]);
    assert_eq!(loader.determine_component_kind(&both).unwrap(), ComponentKind::Types);
}

#[test]
fn determine_component_kind_refuses_a_module_with_neither_interface() {
    let loader = Loader::new().unwrap();
    for exports in [&[][..], &["other:pkg/thing"][..]] {
        let component = compiled(&loader, exports);
        match loader.determine_component_kind(&component).unwrap_err() {
            PluginManagerError::UnknownKindError { message } => assert_eq!(
                message,
                "Component does not export cognexus:plugin/types or cognexus:plugin/nodes interface"
            ),
            other => panic!("unexpected error: {:?}", other),
        }
    }
}

#[test]
fn load_component_hands_the_module_on() {
    let loader = Loader::new().unwrap();
    let component = compiled(&loader, &["cognexus:plugin/types"]);
    let loaded = loader.load_component("signal-types.wasm", Ok(component)).unwrap();
    assert_eq!(loader.determine_component_kind(&loaded).unwrap(), ComponentKind::Types);
}

#[test]
fn load_component_reports_a_malformed_module_with_its_path() {
    let loader = Loader::new().unwrap();
    let outcome = Component::new(loader.engine(), b"not a module");
    let diagnostic = match &outcome {
        Err(error) => error.to_string(),
        Ok(_) => panic!("garbage compiled"),
    };
    match loader.load_component("plugins/broken.wasm", outcome) {
        Err(PluginManagerError::LoadError { path, message, source }) => {
            assert_eq!(path, "plugins/broken.wasm");
            assert_eq!(message, diagnostic);
            assert_eq!(source.to_string(), diagnostic);
        }
        Err(other) => panic!("unexpected error: {:?}", other),
        Ok(_) => panic!("garbage was loaded"),
    }
}

#[test]
fn load_error_text_names_the_file() {
    let loader = Loader::new().unwrap();
    let outcome = Component::new(loader.engine(), b"not a module");
    let error = match loader.load_component("broken.wasm", outcome) {
        Err(error) => error,
        Ok(_) => panic!("garbage was loaded"),
    };
    let text = error.to_string();
    assert!(text.starts_with("Load error: broken.wasm: "));
}

#[test]
fn discover_types_hands_the_records_on() {
    let loader = Loader::new().unwrap();
    let listed = loader.discover_types(Ok(cognexus_plugins::types::list_types())).unwrap();
    assert_eq!(listed.len(), 1);
    assert_eq!(listed[0].name, "Signal");
}

#[test]
fn discover_types_wraps_a_failed_call() {
    let loader = Loader::new().unwrap();
    let failure = wasmtime::Error::msg("trap: unreachable");
    match loader.discover_types(Err(failure)).unwrap_err() {
        PluginManagerError::SandboxError { message, source } => {
            assert_eq!(message, "trap: unreachable");
            assert_eq!(source.to_string(), "trap: unreachable");
        }
        other => panic!("unexpected error: {:?}", other),
    }
}

#[test]
fn discover_nodes_hands_the_records_on() {
    let loader = Loader::new().unwrap();
    let listed = loader.discover_nodes(Ok(cognexus_plugins::nodes::list_nodes())).unwrap();
    assert_eq!(listed.len(), 2);
    assert_eq!(listed[0].name, "Start");
    assert_eq!(listed[1].name, "End");
}

#[test]
fn discover_nodes_wraps_a_failed_call() {
    let loader = Loader::new().unwrap();
    let failure = wasmtime::Error::msg("instantiation failed");
    let error = loader.discover_nodes(Err(failure)).unwrap_err();
    assert!(matches!(
        error,
        PluginManagerError::SandboxError { ref message, .. } if message == "instantiation failed"
    ));
    assert_eq!(error.to_string(), "Sandbox error: instantiation failed");
}

#[test]
fn from_wasmtime_keeps_text_and_cause() {
    let error = PluginManagerError::from_wasmtime(wasmtime::Error::msg("boom"));
    match error {
        PluginManagerError::SandboxError { message, source } => {
            assert_eq!(message, "boom");
            assert_eq!(source.to_string(), "boom");
        }
        other => panic!("unexpected error: {:?}", other),
    }
}

#[test]
fn with_engine_owns_the_engine_it_is_given() {
    let engine = wasmtime::Engine::default();
    let loader = Loader::with_engine(Ok(engine)).unwrap();
    assert!(Component::new(loader.engine(), component_exporting(&["cognexus:plugin/nodes"])).is_ok());
}

#[test]
fn with_engine_wraps_a_failed_engine() {
    let failure = wasmtime::Error::msg("unsupported target");
    match Loader::with_engine(Err(failure)) {
        Err(PluginManagerError::SandboxError { message, source }) => {
            assert_eq!(message, "unsupported target");
            assert_eq!(source.to_string(), "unsupported target");
        }
        Err(other) => panic!("unexpected error: {:?}", other),
        Ok(_) => panic!("a loader was made without an engine"),
    }
}

#[test]
fn an_engine_without_the_component_model_fails_the_load_not_the_loader() {
    let mut config = wasmtime::Config::new();
    config.wasm_component_model(false);
    let loader = Loader::with_engine(wasmtime::Engine::new(&config)).unwrap();
    let outcome = Component::new(loader.engine(), component_exporting(&[]));
    assert!(outcome.is_err());
    assert!(matches!(
        loader.load_component("a.wasm", outcome),
        Err(PluginManagerError::LoadError { ref path, .. }) if path == "a.wasm"
    ));
}

#[test]
fn kinds_are_known_by_name() {
    assert_eq!(ComponentKind::from_name("types"), Some(ComponentKind::Types));
    assert_eq!(ComponentKind::from_name("nodes"), Some(ComponentKind::Nodes));
    assert_eq!(ComponentKind::from_name("Types"), None);
    assert_eq!(ComponentKind::from_name("type"), None);
    assert_eq!(ComponentKind::from_name(""), None);
    assert_eq!(ComponentKind::from_name("cognexus:plugin/types"), None);
    for kind in [ComponentKind::Types, ComponentKind::Nodes] {
        assert_eq!(ComponentKind::from_name(kind.as_str()), Some(kind));
    }
}

#[test]
fn a_new_loader_accepts_components_and_a_loader_without_the_component_model_does_not() {
    let loader = Loader::new().unwrap();
    assert!(Component::new(loader.engine(), component_exporting(&["cognexus:plugin/types"])).is_ok());
    let mut config = wasmtime::Config::new();
    config.wasm_component_model(false);
    let without = Loader::with_engine(wasmtime::Engine::new(&config)).unwrap();
    assert!(Component::new(without.engine(), component_exporting(&["cognexus:plugin/types"])).is_err());
}
