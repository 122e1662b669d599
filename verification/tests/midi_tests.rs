use std::collections::BTreeMap;

use tether_egui::agent::TetherAgentOptionsBuilder;
use tether_egui::midi_mapping::{
    send_if_midi_note, toggle_if_midi_note, update_widget_if_controllable, MidiMapped,
    MidiMapping, MidiMessage, MidiSubscriber, TetherControlChangePayload, TetherNotePayload,
};

fn connected_agent() -> tether_egui::agent::TetherAgent {
    let mut agent = TetherAgentOptionsBuilder::new("gui").build();
    agent.connect();
    agent.connection_result(None).unwrap();
    agent
}

fn encode_fields(fields: &[(&str, u8)]) -> Vec<u8> {
    let map: BTreeMap<String, u8> = fields
        .iter()
        .map(|(k, v)| (String::from(*k), *v))
        .collect();
    rmp_serde::to_vec_named(&map).unwrap()
}

#[test]
fn subscriber_registers_both_midi_plugs() {
    let mut agent = connected_agent();
    let _subscriber = MidiSubscriber::new(&mut agent);
    assert_eq!(
        agent.subscriptions,
        vec![String::from("+/+/controlChange"), String::from("+/+/notesOn")]
    );
}

#[test]
fn subscriber_skips_registration_when_disconnected() {
    let mut agent = TetherAgentOptionsBuilder::new("gui").build();
    let _subscriber = MidiSubscriber::new(&mut agent);
    assert!(agent.subscriptions.is_empty());
}

#[test]
fn control_change_payload_is_decoded() {
    let agent_less_subscriber = MidiSubscriber {};
    let payload = encode_fields(&[("channel", 2), ("controller", 7), ("value", 99)]);
    let message = agent_less_subscriber.get_midi_message("controlChange", &payload);
    match message {
        Some(MidiMessage::ControlChange(cc)) => {
            assert_eq!(
                cc,
                TetherControlChangePayload { channel: 2, controller: 7, value: 99 }
            );
        }
        other => panic!("expected a control change, got {:?}", other),
    }
}

#[test]
fn note_payload_is_decoded() {
    let subscriber = MidiSubscriber {};
    let payload = encode_fields(&[("channel", 1), ("note", 64), ("velocity", 127)]);
    let message = subscriber.get_midi_message("notesOn", &payload);
    match message {
        Some(MidiMessage::Note(n)) => {
            assert_eq!(n, TetherNotePayload { channel: 1, note: 64, velocity: 127 });
        }
        other => panic!("expected a note, got {:?}", other),
    }
}

#[test]
fn other_plugs_are_not_midi() {
    let subscriber = MidiSubscriber {};
    let payload = encode_fields(&[("channel", 1), ("note", 64), ("velocity", 127)]);
    assert!(subscriber.get_midi_message("temperature", &payload).is_none());
}

#[test]
fn undecodable_or_incomplete_midi_payloads_yield_none() {
    let subscriber = MidiSubscriber {};
    assert!(subscriber.get_midi_message("controlChange", &[0xc1]).is_none());
    let missing_value = encode_fields(&[("channel", 1), ("controller", 2)]);
    assert!(subscriber
        .get_midi_message("controlChange", &missing_value)
        .is_none());
    let wrong_names = encode_fields(&[("chan", 1), ("ctrl", 2), ("val", 3)]);
    assert!(subscriber
        .get_midi_message("controlChange", &wrong_names)
        .is_none());
}

#[test]
fn note_learning_fixes_the_binding_without_firing() {
    let mut mapping = Some(MidiMapping::Learning);
    let note = TetherNotePayload { channel: 3, note: 60, velocity: 100 };
    let fired = send_if_midi_note(&mut mapping, &note);
    assert!(!fired);
    assert_eq!(
        mapping,
        Some(MidiMapping::Mapped(MidiMapped { channel: 3, controller_or_note: 60 }))
    );
}

#[test]
fn note_fires_only_on_its_own_channel_and_note() {
    let mut mapping = Some(MidiMapping::Mapped(MidiMapped {
        channel: 3,
        controller_or_note: 60,
    }));
    let hit = TetherNotePayload { channel: 3, note: 60, velocity: 1 };
    let wrong_note = TetherNotePayload { channel: 3, note: 61, velocity: 1 };
    let wrong_channel = TetherNotePayload { channel: 4, note: 60, velocity: 1 };
    assert!(send_if_midi_note(&mut mapping, &hit));
    assert!(!send_if_midi_note(&mut mapping, &wrong_note));
    assert!(!send_if_midi_note(&mut mapping, &wrong_channel));

    let mut unmapped: Option<MidiMapping> = None;
    assert!(!send_if_midi_note(&mut unmapped, &hit));
    assert_eq!(unmapped, None);
}

#[test]
fn toggle_flips_the_value_only_on_a_match() {
    let mut mapping = Some(MidiMapping::Mapped(MidiMapped {
        channel: 1,
        controller_or_note: 10,
    }));
    let mut value = false;
    let hit = TetherNotePayload { channel: 1, note: 10, velocity: 1 };
    let miss = TetherNotePayload { channel: 1, note: 11, velocity: 1 };

    assert!(toggle_if_midi_note(&mut mapping, &mut value, &hit));
    assert!(value);
    assert!(!toggle_if_midi_note(&mut mapping, &mut value, &miss));
    assert!(value);
    assert!(toggle_if_midi_note(&mut mapping, &mut value, &hit));
    assert!(!value);
}

#[test]
fn toggle_learns_without_flipping() {
    let mut mapping = Some(MidiMapping::Learning);
    let mut value = true;
    let note = TetherNotePayload { channel: 5, note: 40, velocity: 80 };
    assert!(!toggle_if_midi_note(&mut mapping, &mut value, &note));
    assert!(value);
    assert_eq!(
        mapping,
        Some(MidiMapping::Mapped(MidiMapped { channel: 5, controller_or_note: 40 }))
    );
}

#[test]
fn control_change_applies_only_on_its_own_controller() {
    let mut mapping = Some(MidiMapping::Learning);
    let cc = TetherControlChangePayload { channel: 2, controller: 20, value: 64 };
    assert!(!update_widget_if_controllable(&mut mapping, &cc));
    assert_eq!(
        mapping,
        Some(MidiMapping::Mapped(MidiMapped { channel: 2, controller_or_note: 20 }))
    );

    assert!(update_widget_if_controllable(&mut mapping, &cc));
    let other = TetherControlChangePayload { channel: 2, controller: 21, value: 64 };
    assert!(!update_widget_if_controllable(&mut mapping, &other));
}
