use tether_egui::topic::{
    build_topic, incoming_plug_name, is_catchall_pattern, parse_agent_id, parse_agent_role,
    parse_plug_name,
};

#[test]
fn build_topic_joins_three_segments() {
    assert_eq!(build_topic("gui", "any", "floats"), "gui/any/floats");
    assert_eq!(build_topic("a", "b", "c"), "a/b/c");
    assert_eq!(build_topic("", "", ""), "//");
}

#[test]
fn round_trip_recovers_every_segment() {
    let topic = build_topic("sensor", "node7", "temperature");
    assert_eq!(parse_agent_role(&topic).as_deref(), Some("sensor"));
    assert_eq!(parse_agent_id(&topic).as_deref(), Some("node7"));
    assert_eq!(parse_plug_name(&topic).as_deref(), Some("temperature"));
}

#[test]
fn round_trip_with_empty_segments() {
    let topic = build_topic("", "x", "");
    assert_eq!(parse_agent_role(&topic).as_deref(), Some(""));
    assert_eq!(parse_agent_id(&topic).as_deref(), Some("x"));
    assert_eq!(parse_plug_name(&topic).as_deref(), Some(""));
}

#[test]
fn parse_examples() {
    assert_eq!(parse_agent_role("one/two/three").as_deref(), Some("one"));
    assert_eq!(parse_agent_id("one/two/three").as_deref(), Some("two"));
    assert_eq!(parse_plug_name("one/two/three").as_deref(), Some("three"));
}

#[test]
fn fewer_than_three_segments_is_rejected_everywhere() {
    for malformed in ["", "just", "just/two", "$SYS", "a-b-c", "/"] {
        assert_eq!(parse_agent_role(malformed), None, "role of {malformed:?}");
        assert_eq!(parse_agent_id(malformed), None, "id of {malformed:?}");
        assert_eq!(parse_plug_name(malformed), None, "plug of {malformed:?}");
    }
}

#[test]
fn more_than_three_segments_takes_the_first_three() {
    assert_eq!(parse_agent_role("a/b/c/d").as_deref(), Some("a"));
    assert_eq!(parse_agent_id("a/b/c/d").as_deref(), Some("b"));
    assert_eq!(parse_plug_name("a/b/c/d").as_deref(), Some("c"));
    assert_eq!(parse_plug_name("foo/bar/baz/one/two/three").as_deref(), Some("baz"));
}

#[test]
fn adjacent_separators_make_empty_segments() {
    assert_eq!(parse_agent_role("//").as_deref(), Some(""));
    assert_eq!(parse_agent_id("//").as_deref(), Some(""));
    assert_eq!(parse_plug_name("//").as_deref(), Some(""));
    assert_eq!(parse_agent_id("a//c").as_deref(), Some(""));
}

#[test]
fn catchall_is_only_the_bare_hash() {
    assert!(is_catchall_pattern("#"));
    assert!(!is_catchall_pattern("##"));
    assert!(!is_catchall_pattern("+"));
    assert!(!is_catchall_pattern("a/b/c"));
    assert!(!is_catchall_pattern(""));
}

#[test]
fn incoming_routing_requires_exactly_three_segments() {
    assert_eq!(incoming_plug_name("sensor/node7/temperature"), "temperature");
    assert_eq!(incoming_plug_name("a/b/"), "");
    assert_eq!(incoming_plug_name("just/two"), "INVALID_TETHER_TOPIC!");
    assert_eq!(incoming_plug_name("a/b/c/d"), "INVALID_TETHER_TOPIC!");
    assert_eq!(incoming_plug_name(""), "INVALID_TETHER_TOPIC!");
}
