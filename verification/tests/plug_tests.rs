use tether_egui::agent::{ConnectionState, TetherAgentOptionsBuilder};
use tether_egui::plug::{
    BuildError, PlugDefinition, PlugOptionsBuilder, Qos, TetherOrCustomTopic, ThreePartTopic,
};

fn connected_agent(role: &str, id: Option<&str>) -> tether_egui::agent::TetherAgent {
    let mut agent = TetherAgentOptionsBuilder::new(role).id(id).build();
    assert!(agent.connect());
    assert!(agent.connection_result(None).is_ok());
    agent
}

#[test]
fn output_plug_topic_follows_agent_identity() {
    let mut agent = connected_agent("gui", Some("any"));
    let plug = PlugOptionsBuilder::create_output("floats")
        .build(&mut agent)
        .unwrap();
    assert_eq!(plug.name(), "floats");
    assert_eq!(plug.topic(), "gui/any/floats");
}

#[test]
fn output_plug_builds_while_disconnected() {
    let mut agent = TetherAgentOptionsBuilder::new("gui").build();
    assert_eq!(agent.state, ConnectionState::Unconnected);
    let plug = PlugOptionsBuilder::create_output("floats")
        .build(&mut agent)
        .unwrap();
    assert_eq!(plug.topic(), "gui/any/floats");
}

#[test]
fn input_plug_defaults_to_wildcard_role_and_id() {
    let mut agent = connected_agent("tester", None);
    let plug = PlugOptionsBuilder::create_input("one")
        .build(&mut agent)
        .unwrap();
    assert_eq!(plug.name(), "one");
    assert_eq!(plug.topic(), "+/+/one");
    assert_eq!(agent.subscriptions, vec![String::from("+/+/one")]);
}

#[test]
fn input_plug_needs_a_connection() {
    let mut agent = TetherAgentOptionsBuilder::new("tester").build();
    let result = PlugOptionsBuilder::create_input("one").build(&mut agent);
    assert!(matches!(result, Err(BuildError::NotConnected)));
    assert!(agent.subscriptions.is_empty());
}

#[test]
fn topic_override_takes_precedence() {
    let mut agent = connected_agent("tester", None);
    let plug = PlugOptionsBuilder::create_input("everything")
        .topic(Some("#"))
        .build(&mut agent)
        .unwrap();
    assert_eq!(plug.name(), "everything");
    assert_eq!(plug.topic(), "#");

    let output = PlugOptionsBuilder::create_output("weird")
        .topic(Some("foo/bar/baz/one/two/three"))
        .build(&mut agent)
        .unwrap();
    assert_eq!(output.topic(), "foo/bar/baz/one/two/three");
}

#[test]
fn custom_topic_survives_identity_change() {
    let mut agent = connected_agent("roleA", Some("idA"));
    let plug = PlugOptionsBuilder::create_output("thing")
        .topic(Some("fixed/custom/topic"))
        .build(&mut agent)
        .unwrap();
    assert_eq!(plug.topic(), "fixed/custom/topic");

    agent.set_role("roleB");
    agent.set_id("idB");
    assert_eq!(plug.topic(), "fixed/custom/topic");

    let derived = PlugOptionsBuilder::create_output("thing")
        .build(&mut agent)
        .unwrap();
    assert_eq!(derived.topic(), "roleB/idB/thing");
}

#[test]
fn qos_and_retain_options() {
    let mut agent = connected_agent("tester", None);
    let plug = PlugOptionsBuilder::create_output("two")
        .qos(Some(Qos::ExactlyOnce))
        .retain(Some(true))
        .build(&mut agent)
        .unwrap();
    match plug {
        PlugDefinition::OutputPlug(op) => {
            assert_eq!(op.qos(), Qos::ExactlyOnce);
            assert!(op.retain());
        }
        PlugDefinition::InputPlug(_) => panic!("expected an output plug"),
    }

    let defaulted = PlugOptionsBuilder::create_output("three")
        .build(&mut agent)
        .unwrap();
    match defaulted {
        PlugDefinition::OutputPlug(op) => {
            assert_eq!(op.qos(), Qos::AtLeastOnce);
            assert!(!op.retain());
        }
        PlugDefinition::InputPlug(_) => panic!("expected an output plug"),
    }
}

#[test]
fn qos_levels() {
    assert_eq!(Qos::AtMostOnce.level(), 0);
    assert_eq!(Qos::AtLeastOnce.level(), 1);
    assert_eq!(Qos::ExactlyOnce.level(), 2);
}

#[test]
fn input_plug_matching_with_wildcards() {
    let mut agent = connected_agent("tester", None);
    let plug = PlugOptionsBuilder::create_input("testPlug")
        .build(&mut agent)
        .unwrap();

    let matching = TetherOrCustomTopic::Tether(ThreePartTopic::new("dummy", "any", "testPlug"));
    let wrong_name = TetherOrCustomTopic::Tether(ThreePartTopic::new("dummy", "any", "another"));
    assert!(plug.matches(&matching));
    assert!(!plug.matches(&wrong_name));

    let foreign = TetherOrCustomTopic::Custom(String::from("not/a-convention"));
    assert!(!plug.matches(&foreign));
}

#[test]
fn catchall_input_matches_everything() {
    let mut agent = connected_agent("tester", None);
    let plug = PlugOptionsBuilder::create_input("everything")
        .topic(Some("#"))
        .build(&mut agent)
        .unwrap();
    assert!(plug.matches(&TetherOrCustomTopic::Tether(ThreePartTopic::new(
        "any", "any", "plugName"
    ))));
    assert!(plug.matches(&TetherOrCustomTopic::Custom(String::from(
        "one/two/three/four/five"
    ))));
}

#[test]
fn custom_input_matches_only_its_exact_topic() {
    let mut agent = connected_agent("tester", None);
    let plug = PlugOptionsBuilder::create_input("customPlug")
        .topic(Some("one/two/three/four/five"))
        .build(&mut agent)
        .unwrap();
    assert!(plug.matches(&TetherOrCustomTopic::Custom(String::from(
        "one/two/three/four/five"
    ))));
    assert!(!plug.matches(&TetherOrCustomTopic::Custom(String::from(
        "one/one/one/one/one"
    ))));
}

#[test]
fn output_plugs_never_match_incoming() {
    let mut agent = connected_agent("tester", None);
    let plug = PlugOptionsBuilder::create_output("out")
        .build(&mut agent)
        .unwrap();
    assert!(!plug.matches(&TetherOrCustomTopic::Tether(ThreePartTopic::new(
        "tester", "any", "out"
    ))));
}

#[test]
fn three_part_topic_accessors() {
    let t = ThreePartTopic::new("r", "i", "p");
    assert_eq!(t.role(), "r");
    assert_eq!(t.id(), "i");
    assert_eq!(t.plug_name(), "p");
    assert_eq!(t.topic(), "r/i/p");
    let wrapped = TetherOrCustomTopic::Tether(t);
    assert_eq!(wrapped.full_topic_string(), "r/i/p");
}
