use cognexus_plugins::plugin_manager::translator::{wit_direction_to_proto, wit_port_to_proto};
use cognexus_plugins::plugin_manager::{wit_node_to_proto, wit_type_to_proto};
use cognexus_plugins::proto;
use cognexus_plugins::wit;

fn port(id: &str, name: &str, direction: wit::Direction, data_type_id: &str) -> wit::PortSpec {
    wit::PortSpec {
        id: String::from(id),
        name: String::from(name),
        direction,
        data_type_id: String::from(data_type_id),
    }
}

fn node(inputs: Vec<wit::PortSpec>, outputs: Vec<wit::PortSpec>) -> wit::NodeInfo {
    wit::NodeInfo {
        id: String::from("node-id"),
        name: String::from("Node"),
        description: String::from("does things"),
        version: String::from("1.2.3"),
        input_ports: inputs,
        output_ports: outputs,
    }
}

#[test]
fn type_translation_copies_every_field() {
    let definition = wit_type_to_proto(wit::TypeInfo {
        id: String::from("989bcbb2-b1a1-4f3f-be15-22ada278aedc"),
        name: String::from("Signal"),
        description: String::from("A flow control signal with no data payload"),
        version: String::from("0.1.0"),
    });
    assert_eq!(definition.id, "989bcbb2-b1a1-4f3f-be15-22ada278aedc");
    assert_eq!(definition.name, "Signal");
    assert_eq!(definition.description, "A flow control signal with no data payload");
    assert_eq!(definition.version, "0.1.0");
}

#[test]
fn type_translation_passes_empty_and_malformed_fields_through() {
    let definition = wit_type_to_proto(wit::TypeInfo {
        id: String::new(),
        name: String::from("  "),
        description: String::from("\u{0}\n"),
        version: String::from("not a version"),
    });
    assert_eq!(definition.id, "");
    assert_eq!(definition.name, "  ");
    assert_eq!(definition.description, "\u{0}\n");
    assert_eq!(definition.version, "not a version");
}

#[test]
fn directions_map_one_to_one() {
    assert_eq!(wit_direction_to_proto(wit::Direction::Input), proto::Direction::Input);
    assert_eq!(wit_direction_to_proto(wit::Direction::Output), proto::Direction::Output);
    assert_ne!(
        wit_direction_to_proto(wit::Direction::Input),
        wit_direction_to_proto(wit::Direction::Output)
    );
}

#[test]
fn port_translation_copies_every_field() {
    let translated = wit_port_to_proto(port("p", "signal", wit::Direction::Output, "t"));
    assert_eq!(translated.id, "p");
    assert_eq!(translated.name, "signal");
    assert_eq!(translated.direction, proto::Direction::Output);
    assert_eq!(translated.data_type_id, "t");
}

#[test]
fn node_translation_keeps_counts_fields_and_order() {
    let definition = wit_node_to_proto(node(
        vec![
            port("i0", "first", wit::Direction::Input, "t0"),
            port("i1", "second", wit::Direction::Input, "t1"),
            port("i2", "third", wit::Direction::Input, "t2"),
        ],
        vec![
            port("o0", "left", wit::Direction::Output, "t3"),
            port("o1", "right", wit::Direction::Output, "t4"),
        ],
    ));
    assert_eq!(definition.id, "node-id");
    assert_eq!(definition.name, "Node");
    assert_eq!(definition.description, "does things");
    assert_eq!(definition.version, "1.2.3");
    assert_eq!(definition.input_ports.len(), 3);
    assert_eq!(definition.output_ports.len(), 2);
    let inputs: Vec<(&str, &str, &str)> = definition
        .input_ports
        .iter()
        .map(|port| (port.id.as_str(), port.name.as_str(), port.data_type_id.as_str()))
        .collect();
    assert_eq!(inputs, vec![("i0", "first", "t0"), ("i1", "second", "t1"), ("i2", "third", "t2")]);
    assert!(definition.input_ports.iter().all(|port| port.direction == proto::Direction::Input));
    let outputs: Vec<(&str, &str, &str)> = definition
        .output_ports
        .iter()
        .map(|port| (port.id.as_str(), port.name.as_str(), port.data_type_id.as_str()))
        .collect();
    assert_eq!(outputs, vec![("o0", "left", "t3"), ("o1", "right", "t4")]);
    assert!(definition.output_ports.iter().all(|port| port.direction == proto::Direction::Output));
}

#[test]
fn node_translation_keeps_the_direction_that_each_port_reports() {
    let definition = wit_node_to_proto(node(
        vec![port("a", "a", wit::Direction::Output, "t")],
        vec![port("b", "b", wit::Direction::Input, "t")],
    ));
    assert_eq!(definition.input_ports[0].direction, proto::Direction::Output);
    assert_eq!(definition.output_ports[0].direction, proto::Direction::Input);
}

#[test]
fn node_translation_of_a_node_without_ports() {
    let definition = wit_node_to_proto(node(vec![], vec![]));
    assert!(definition.input_ports.is_empty());
    assert!(definition.output_ports.is_empty());
}

#[test]
fn built_in_nodes_translate() {
    let nodes: Vec<proto::NodeDefinition> =
        cognexus_plugins::nodes::list_nodes().into_iter().map(wit_node_to_proto).collect();
    assert_eq!(nodes[0].name, "Start");
    assert_eq!(nodes[0].input_ports.len(), 0);
    assert_eq!(nodes[0].output_ports.len(), 1);
    assert_eq!(nodes[0].output_ports[0].direction, proto::Direction::Output);
    assert_eq!(nodes[1].name, "End");
    assert_eq!(nodes[1].input_ports.len(), 1);
    assert_eq!(nodes[1].output_ports.len(), 0);
    assert_eq!(nodes[1].input_ports[0].direction, proto::Direction::Input);
}
