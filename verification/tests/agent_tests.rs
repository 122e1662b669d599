use tether_egui::agent::{
    ConnectError, ConnectionState, PublishError, TetherAgentOptionsBuilder,
};
use tether_egui::codec::PlugValue;
use tether_egui::insights::Insights;
use tether_egui::plug::{PlugOptionsBuilder, Qos};

fn connected_agent() -> tether_egui::agent::TetherAgent {
    let mut agent = TetherAgentOptionsBuilder::new("gui").build();
    assert!(agent.connect());
    assert!(agent.connection_result(None).is_ok());
    agent
}

#[test]
fn builder_defaults() {
    let agent = TetherAgentOptionsBuilder::new("gui").build();
    assert_eq!(agent.role(), "gui");
    assert_eq!(agent.id(), "any");
    assert_eq!(agent.host, "localhost");
    assert_eq!(agent.port, 1883);
    assert_eq!(agent.username, "");
    assert_eq!(agent.password, "");
    assert_eq!(agent.state, ConnectionState::Unconnected);
    assert!(!agent.is_connected());
}

#[test]
fn builder_overrides() {
    let agent = TetherAgentOptionsBuilder::new("brain")
        .id(Some("unit1"))
        .host(Some("10.0.0.2"))
        .port(Some(8883))
        .username(Some("user"))
        .password(Some("pass"))
        .auto_connect(false)
        .build();
    assert_eq!(agent.role(), "brain");
    assert_eq!(agent.id(), "unit1");
    assert_eq!(agent.host, "10.0.0.2");
    assert_eq!(agent.port, 8883);
    assert_eq!(agent.username, "user");
    assert_eq!(agent.password, "pass");
}

#[test]
fn connect_walks_the_state_machine() {
    let mut agent = TetherAgentOptionsBuilder::new("gui").build();
    assert_eq!(agent.state, ConnectionState::Unconnected);

    let dial = agent.connect();
    assert!(dial);
    assert_eq!(agent.state, ConnectionState::Connecting);

    // While an attempt is in flight, connect is a no-op.
    assert!(!agent.connect());
    assert_eq!(agent.state, ConnectionState::Connecting);

    assert!(agent.connection_result(None).is_ok());
    assert_eq!(agent.state, ConnectionState::Connected);
    assert!(agent.is_connected());

    // Once connected, connect is an idempotent no-op.
    assert!(!agent.connect());
    assert_eq!(agent.state, ConnectionState::Connected);
}

#[test]
fn failed_dial_falls_back_to_unconnected() {
    let mut agent = TetherAgentOptionsBuilder::new("gui").build();
    agent.connect();
    let r = agent.connection_result(Some(ConnectError::AuthRejected));
    assert_eq!(r, Err(ConnectError::AuthRejected));
    assert_eq!(agent.state, ConnectionState::Unconnected);
    assert!(!agent.is_connected());
}

#[test]
fn publish_while_disconnected_fails_and_logs_nothing() {
    let mut sender = TetherAgentOptionsBuilder::new("gui").build();
    let plug = PlugOptionsBuilder::create_output("floats")
        .build(&mut sender)
        .unwrap();
    let insights = Insights::new(&mut sender, "#");
    let before_count = insights.message_count();
    let before_len = insights.message_log_len();

    let result = sender.publish(&plug, Some(&[0xc3]));
    assert_eq!(result.err(), Some(PublishError::NotConnected));

    // Sending is not itself logged on the sending side.
    assert_eq!(insights.message_count(), before_count);
    assert_eq!(insights.message_log_len(), before_len);
}

#[test]
fn publish_carries_plug_topic_and_options() {
    let mut agent = connected_agent();
    let plug = PlugOptionsBuilder::create_output("floats")
        .qos(Some(Qos::ExactlyOnce))
        .retain(Some(true))
        .build(&mut agent)
        .unwrap();
    let message = agent.publish(&plug, Some(&[1, 2, 3])).unwrap();
    assert_eq!(message.topic, "gui/any/floats");
    assert_eq!(message.payload, vec![1, 2, 3]);
    assert_eq!(message.qos, Qos::ExactlyOnce);
    assert!(message.retain);

    let empty = agent.publish(&plug, None).unwrap();
    assert!(empty.payload.is_empty());
}

#[test]
fn encode_and_publish_bool_matches_the_wire_format() {
    let mut agent = connected_agent();
    let plug = PlugOptionsBuilder::create_output("flag")
        .build(&mut agent)
        .unwrap();
    let message = agent
        .encode_and_publish(&plug, &PlugValue::Bool(true))
        .unwrap();
    assert_eq!(message.payload, rmp_serde::to_vec(&true).unwrap());
    assert_eq!(message.payload, vec![0xc3]);

    let message = agent
        .encode_and_publish(&plug, &PlugValue::Bool(false))
        .unwrap();
    assert_eq!(message.payload, vec![0xc2]);
}

#[test]
fn encode_and_publish_whole_numbers_match_the_wire_format() {
    let mut agent = connected_agent();
    let plug = PlugOptionsBuilder::create_output("numbers")
        .build(&mut agent)
        .unwrap();
    for n in [0i64, 5, 127, 128, -1, -33, 300, -70000, 1 << 40] {
        let message = agent
            .encode_and_publish(&plug, &PlugValue::WholeNumber(n))
            .unwrap();
        assert_eq!(message.payload, rmp_serde::to_vec(&n).unwrap(), "for {n}");
    }
}

#[test]
fn encode_and_publish_floats_match_the_wire_format() {
    let mut agent = connected_agent();
    let plug = PlugOptionsBuilder::create_output("floats")
        .build(&mut agent)
        .unwrap();
    for x in [0.0f64, 1.5, -2.25, 1234.5678, f64::MIN_POSITIVE] {
        let message = agent
            .encode_and_publish(&plug, &PlugValue::FloatBits(x.to_bits()))
            .unwrap();
        assert_eq!(message.payload, rmp_serde::to_vec(&x).unwrap(), "for {x}");
    }
}

#[test]
fn encode_and_publish_points_match_the_wire_format() {
    let mut agent = connected_agent();
    let plug = PlugOptionsBuilder::create_output("point2d")
        .build(&mut agent)
        .unwrap();
    let (x, y) = (1.5f64, -0.25f64);
    let message = agent
        .encode_and_publish(&plug, &PlugValue::PointBits(x.to_bits(), y.to_bits()))
        .unwrap();
    assert_eq!(message.payload, rmp_serde::to_vec(&[x, y]).unwrap());
}

#[test]
fn encode_and_publish_colours_match_the_wire_format() {
    let mut agent = connected_agent();
    let plug = PlugOptionsBuilder::create_output("colours")
        .build(&mut agent)
        .unwrap();
    let message = agent
        .encode_and_publish(&plug, &PlugValue::Colour([10, 20, 200, 255]))
        .unwrap();
    assert_eq!(message.payload, rmp_serde::to_vec(&[10u8, 20, 200, 255]).unwrap());
}

#[test]
fn encode_and_publish_empty_has_no_payload() {
    let mut agent = connected_agent();
    let plug = PlugOptionsBuilder::create_output("events")
        .build(&mut agent)
        .unwrap();
    let message = agent.encode_and_publish(&plug, &PlugValue::Empty).unwrap();
    assert!(message.payload.is_empty());
}

#[test]
fn encode_and_publish_json_matches_named_encoding() {
    let mut agent = connected_agent();
    let plug = PlugOptionsBuilder::create_output("generic")
        .build(&mut agent)
        .unwrap();
    let text = "{\"answer\":42,\"name\":\"x\"}";
    let message = agent
        .encode_and_publish(&plug, &PlugValue::Json(String::from(text)))
        .unwrap();
    let value: serde_json::Value = serde_json::from_str(text).unwrap();
    assert_eq!(message.payload, rmp_serde::to_vec_named(&value).unwrap());
}

#[test]
fn encode_and_publish_invalid_json_fails() {
    let mut agent = connected_agent();
    let plug = PlugOptionsBuilder::create_output("generic")
        .build(&mut agent)
        .unwrap();
    let result = agent.encode_and_publish(&plug, &PlugValue::Json(String::from("not json")));
    assert_eq!(result.err(), Some(PublishError::EncodeFailed));
}

#[test]
fn set_role_and_id_change_later_builds_only() {
    let mut agent = connected_agent();
    let before = PlugOptionsBuilder::create_output("p")
        .build(&mut agent)
        .unwrap();
    agent.set_role("newRole");
    agent.set_id("newId");
    assert_eq!(agent.role(), "newRole");
    assert_eq!(agent.id(), "newId");
    assert_eq!(before.topic(), "gui/any/p");
    let after = PlugOptionsBuilder::create_output("p")
        .build(&mut agent)
        .unwrap();
    assert_eq!(after.topic(), "newRole/newId/p");
}

#[test]
fn create_plug_helpers() {
    let mut agent = connected_agent();
    let input = agent
        .create_input_plug("monitor", None, Some("#"))
        .unwrap();
    assert_eq!(input.topic(), "#");
    assert_eq!(agent.subscriptions, vec![String::from("#")]);

    let output = agent
        .create_output_plug("colours", Some(Qos::AtMostOnce), None)
        .unwrap();
    assert_eq!(output.topic(), "gui/any/colours");
    // Building an output plug registers no subscription.
    assert_eq!(agent.subscriptions.len(), 1);
}

#[test]
fn broker_uri_formats_host_and_port() {
    let agent = TetherAgentOptionsBuilder::new("gui").build();
    assert_eq!(agent.broker_uri(), "mqtt://localhost:1883/");

    let custom = TetherAgentOptionsBuilder::new("gui")
        .host(Some("10.0.0.7"))
        .port(Some(80))
        .build();
    assert_eq!(custom.broker_uri(), "mqtt://10.0.0.7:80/");

    let (role, id, uri) = custom.description();
    assert_eq!(role, "gui");
    assert_eq!(id, "any");
    assert_eq!(uri, "mqtt://10.0.0.7:80/");
}
