use std::collections::BTreeMap;

use tether_egui::agent::TetherAgentOptionsBuilder;
use tether_egui::insights::Insights;
use tether_egui::message_log::MONITOR_LOG_LENGTH;

fn connected_agent() -> tether_egui::agent::TetherAgent {
    let mut agent = TetherAgentOptionsBuilder::new("gui").build();
    agent.connect();
    agent.connection_result(None).unwrap();
    agent
}

fn fresh_insights() -> Insights {
    let mut agent = connected_agent();
    Insights::new(&mut agent, "#")
}

#[test]
fn new_insights_is_empty_and_subscribes_monitor() {
    let mut agent = connected_agent();
    let insights = Insights::new(&mut agent, "#");
    assert_eq!(insights.message_count(), 0);
    assert_eq!(insights.message_log_len(), 0);
    assert!(insights.topics().is_empty());
    assert!(insights.roles().is_empty());
    assert!(insights.ids().is_empty());
    assert!(insights.plugs().is_empty());
    assert_eq!(agent.subscriptions, vec![String::from("#")]);
    assert_eq!(insights.monitor_plug.as_ref().unwrap().topic(), "#");
}

#[test]
fn new_insights_skips_monitor_when_disconnected() {
    let mut agent = TetherAgentOptionsBuilder::new("gui").build();
    let insights = Insights::new(&mut agent, "#");
    assert!(insights.monitor_plug.is_none());
    assert!(agent.subscriptions.is_empty());
    assert_eq!(insights.message_count(), 0);
}

#[test]
fn update_files_each_segment_and_logs_json() {
    let mut insights = fresh_insights();
    let mut fields: BTreeMap<String, u64> = BTreeMap::new();
    fields.insert(String::from("x"), 1);
    let payload = rmp_serde::to_vec_named(&fields).unwrap();

    insights.update("sensor/node7/temperature", &payload);

    assert_eq!(insights.message_count(), 1);
    assert_eq!(insights.topics(), &vec![String::from("sensor/node7/temperature")]);
    assert_eq!(insights.roles(), &vec![String::from("sensor")]);
    assert_eq!(insights.ids(), &vec![String::from("node7")]);
    assert_eq!(insights.plugs(), &vec![String::from("temperature")]);

    let log = insights.message_log();
    assert_eq!(log.len(), 1);
    assert_eq!(log[0].0, "sensor/node7/temperature");
    assert_eq!(log[0].1, "{\"x\":1}");
}

#[test]
fn empty_payload_logs_the_empty_marker() {
    let mut insights = fresh_insights();
    insights.update("a/b/c", &[]);
    assert_eq!(insights.message_count(), 1);
    let log = insights.message_log();
    assert_eq!(log.len(), 1);
    assert_eq!(log[0].1, "[EMPTY_MESSAGE]");
}

#[test]
fn undecodable_payload_logs_the_decode_marker_and_still_counts() {
    let mut insights = fresh_insights();
    // 0xc1 is never used by the MessagePack format.
    insights.update("a/b/c", &[0xc1, 0xc1]);
    assert_eq!(insights.message_count(), 1);
    let log = insights.message_log();
    assert_eq!(log.len(), 1);
    assert_eq!(log[0].1, "[DECODE_ERROR]");
}

#[test]
fn malformed_topic_is_filed_under_unknown() {
    let mut insights = fresh_insights();
    insights.update("$SYS", &[]);
    assert_eq!(insights.topics(), &vec![String::from("$SYS")]);
    assert_eq!(insights.roles(), &vec![String::from("unknown")]);
    assert_eq!(insights.ids(), &vec![String::from("unknown")]);
    assert_eq!(insights.plugs(), &vec![String::from("unknown")]);
}

#[test]
fn duplicate_values_are_not_filed_twice() {
    let mut insights = fresh_insights();
    insights.update("sensor/node7/temperature", &[]);
    insights.update("sensor/node7/temperature", &[]);
    insights.update("sensor/node7/humidity", &[]);

    assert_eq!(insights.message_count(), 3);
    assert_eq!(
        insights.topics(),
        &vec![
            String::from("sensor/node7/temperature"),
            String::from("sensor/node7/humidity"),
        ]
    );
    assert_eq!(insights.roles(), &vec![String::from("sensor")]);
    assert_eq!(insights.ids(), &vec![String::from("node7")]);
    assert_eq!(
        insights.plugs(),
        &vec![String::from("temperature"), String::from("humidity")]
    );
    // Every message is logged even when the dedup lists do not grow.
    assert_eq!(insights.message_log_len(), 3);
}

#[test]
fn three_hundred_messages_keep_the_most_recent_256() {
    let mut insights = fresh_insights();
    for k in 0..300u64 {
        let topic = format!("role/id/m{}", k);
        let payload = rmp_serde::to_vec(&k).unwrap();
        insights.update(&topic, &payload);
    }
    assert_eq!(insights.message_count(), 300);
    assert_eq!(insights.message_log_len(), MONITOR_LOG_LENGTH);

    let log = insights.message_log();
    assert_eq!(log.len(), 256);
    // The oldest surviving entry is message #45 (300 - 256 + 1), index 44.
    assert_eq!(log[0].0, "role/id/m44");
    assert_eq!(log[0].1, "44");
    // The newest entry is the last message pushed, in arrival order.
    assert_eq!(log[255].0, "role/id/m299");
    for (offset, entry) in log.iter().enumerate() {
        assert_eq!(entry.0, format!("role/id/m{}", offset + 44));
    }
}

#[test]
fn count_and_log_length_track_updates() {
    let mut insights = fresh_insights();
    for k in 0..10u64 {
        insights.update("a/b/c", &rmp_serde::to_vec(&k).unwrap());
        assert_eq!(insights.message_count(), k + 1);
        assert_eq!(insights.message_log_len() as u64, k + 1);
    }
}

#[test]
fn sampler_records_deltas_and_rate() {
    let mut insights = fresh_insights();
    assert_eq!(insights.rate(), None);

    insights.update("a/b/c", &[]);
    insights.update("a/b/c", &[]);
    insights.update("a/b/c", &[]);
    insights.sample();
    assert_eq!(insights.rate(), Some(3));

    insights.sample();
    assert_eq!(insights.rate(), Some(0));

    insights.update("a/b/c", &[]);
    insights.sample();
    assert_eq!(insights.rate(), Some(1));
    assert_eq!(insights.deltas(), &vec![3u64, 0, 1]);
}

#[test]
fn add_if_unique_keeps_first_seen_order() {
    let mut list: Vec<String> = Vec::new();
    tether_egui::insights::add_if_unique("b", &mut list);
    tether_egui::insights::add_if_unique("a", &mut list);
    tether_egui::insights::add_if_unique("b", &mut list);
    tether_egui::insights::add_if_unique("c", &mut list);
    tether_egui::insights::add_if_unique("a", &mut list);
    assert_eq!(list, vec![String::from("b"), String::from("a"), String::from("c")]);
}

#[test]
fn message_log_filter_matches_substrings_of_the_topic() {
    let mut insights = fresh_insights();
    insights.update("sensor/node7/temperature", &[]);
    insights.update("gui/any/floats", &[]);
    insights.update("sensor/node9/humidity", &[]);

    let all = insights.message_log_filtered("");
    assert_eq!(all.len(), 3);

    let sensors = insights.message_log_filtered("sensor");
    assert_eq!(sensors.len(), 2);
    assert_eq!(sensors[0].0, "sensor/node7/temperature");
    assert_eq!(sensors[1].0, "sensor/node9/humidity");

    let node7 = insights.message_log_filtered("node7");
    assert_eq!(node7.len(), 1);

    let nothing = insights.message_log_filtered("nomatch");
    assert!(nothing.is_empty());

    // The filter looks at topics, not bodies.
    let bodies = insights.message_log_filtered("EMPTY");
    assert!(bodies.is_empty());
}
