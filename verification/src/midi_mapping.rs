//! MIDI control-surface mapping: decoding the control-change and note-on
//! payloads, and the learn/match rules that bind a widget to a control.
//!
//! A mapping starts in `Learning`; the first event fixes the channel and
//! controller (or note), and from then on the mapping fires exactly on
//! its own channel and controller.

use vstd::prelude::*;

use crate::agent::TetherAgent;
use crate::codec::{decode_u8_fields, u8_map_of, u8_map_ok};
use crate::plug::PlugOptionsBuilder;
use crate::text::str_eq;
use crate::topic::topic_of;

verus! {

/// A learned binding: which channel and which controller or note.
#[derive(Clone, Copy, PartialEq, Eq, Structural, Debug)]
pub struct MidiMapped {
    pub channel: u8,
    pub controller_or_note: u8,
}

/// The control-change payload carried on the `controlChange` plug.
#[derive(Clone, Copy, PartialEq, Eq, Structural, Debug)]
pub struct TetherControlChangePayload {
    pub channel: u8,
    pub controller: u8,
    pub value: u8,
}

/// The note-on payload carried on the `notesOn` plug.
#[derive(Clone, Copy, PartialEq, Eq, Structural, Debug)]
pub struct TetherNotePayload {
    pub channel: u8,
    pub note: u8,
    pub velocity: u8,
}

/// A decoded MIDI event of either kind.
#[derive(Clone, Copy, PartialEq, Eq, Structural, Debug)]
pub enum MidiMessage {
    ControlChange(TetherControlChangePayload),
    Note(TetherNotePayload),
}

/// The mapping state of one widget.
#[derive(Clone, Copy, PartialEq, Eq, Structural, Debug)]
pub enum MidiMapping {
    /// Waiting for the first event to learn channel and controller.
    Learning,
    Mapped(MidiMapped),
}

/// The value under `key` in a decoded field map: the first pair with that
/// name.
pub open spec fn lookup_field(fields: Seq<(Seq<char>, u8)>, key: Seq<char>) -> Option<u8>
    decreases fields.len(),
{
    if fields.len() == 0 {
        None
    } else if fields[0].0 == key {
        Some(fields[0].1)
    } else {
        lookup_field(fields.drop_first(), key)
    }
}

/// The control-change payload a byte string decodes to, if it is a field
/// map holding `channel`, `controller` and `value`.
pub open spec fn decoded_cc(b: Seq<u8>) -> Option<TetherControlChangePayload> {
    if u8_map_ok(b) {
        match (
            lookup_field(u8_map_of(b), "channel"@),
            lookup_field(u8_map_of(b), "controller"@),
            lookup_field(u8_map_of(b), "value"@),
        ) {
            (Some(channel), Some(controller), Some(value)) => Some(
                TetherControlChangePayload { channel, controller, value },
            ),
            _ => None,
        }
    } else {
        None
    }
}

/// The note payload a byte string decodes to, if it is a field map
/// holding `channel`, `note` and `velocity`.
pub open spec fn decoded_note(b: Seq<u8>) -> Option<TetherNotePayload> {
    if u8_map_ok(b) {
        match (
            lookup_field(u8_map_of(b), "channel"@),
            lookup_field(u8_map_of(b), "note"@),
            lookup_field(u8_map_of(b), "velocity"@),
        ) {
            (Some(channel), Some(note), Some(velocity)) => Some(
                TetherNotePayload { channel, note, velocity },
            ),
            _ => None,
        }
    } else {
        None
    }
}

/// Find `key` in a decoded field list.
fn lookup_u8(fields: &Vec<(String, u8)>, key: &str) -> (r: Option<u8>)
    ensures
        r == lookup_field(fields.deep_view(), key@),
{
    let ghost all = fields.deep_view();
    let len = fields.len();
    let mut i: usize = 0;
    proof {
        assert(all.skip(0) =~= all);
    }
    while i < len
        invariant
            0 <= i <= len,
            len == fields@.len(),
            all == fields.deep_view(),
            lookup_field(all, key@) == lookup_field(all.skip(i as int), key@),
        decreases len - i,
    {
        proof {
            assert(all.skip(i as int)[0] == all[i as int]);
        }
        if str_eq(fields[i].0.as_str(), key) {
            proof {
                assert(all[i as int].0 == key@);
            }
            return Some(fields[i].1);
        }
        proof {
            assert(all.skip(i as int).drop_first() =~= all.skip(i as int + 1));
        }
        i = i + 1;
    }
    proof {
        assert(all.skip(len as int) =~= Seq::<(Seq<char>, u8)>::empty());
    }
    None
}

/// The subscriber for the two MIDI plugs.
pub struct MidiSubscriber {}

impl MidiSubscriber {
    /// Subscribe to all control-change and note-on traffic; skipped
    /// silently when the agent is not connected.
    pub fn new(agent: &mut TetherAgent) -> (r: MidiSubscriber)
        ensures
            old(agent).is_connected_spec() ==> {
                &&& final(agent).subscriptions.deep_view() == old(
                    agent,
                ).subscriptions.deep_view().push(topic_of("+"@, "+"@, "controlChange"@)).push(
                    topic_of("+"@, "+"@, "notesOn"@),
                )
                &&& final(agent).same_but_subscriptions(*old(agent))
            },
            !old(agent).is_connected_spec() ==> *final(agent) == *old(agent),
    {
        if agent.is_connected() {
            let _midi_controllers_plug = PlugOptionsBuilder::create_input("controlChange").build(
                agent,
            );
            let _midi_notes_plug = PlugOptionsBuilder::create_input("notesOn").build(agent);
        }
        MidiSubscriber {}
    }

    /// Decode the payload of a message according to the plug it arrived
    /// on: `controlChange` and `notesOn` carry MIDI events, everything
    /// else is not a MIDI message. An undecodable payload yields `None`.
    pub fn get_midi_message(&self, plug_name: &str, payload: &[u8]) -> (r: Option<MidiMessage>)
        ensures
            plug_name@ == "controlChange"@ ==> r == match decoded_cc(payload@) {
                Some(p) => Some(MidiMessage::ControlChange(p)),
                None => None::<MidiMessage>,
            },
            plug_name@ == "notesOn"@ ==> r == match decoded_note(payload@) {
                Some(p) => Some(MidiMessage::Note(p)),
                None => None::<MidiMessage>,
            },
            plug_name@ != "controlChange"@ && plug_name@ != "notesOn"@ ==> r is None,
    {
        proof {
            reveal_strlit("controlChange");
            reveal_strlit("notesOn");
            assert("controlChange"@.len() != "notesOn"@.len());
        }
        if str_eq(plug_name, "controlChange") {
            match decode_u8_fields(payload) {
                Some(fields) => {
                    let channel = lookup_u8(&fields, "channel");
                    let controller = lookup_u8(&fields, "controller");
                    let value = lookup_u8(&fields, "value");
                    match (channel, controller, value) {
                        (Some(channel), Some(controller), Some(value)) => Some(
                            MidiMessage::ControlChange(
                                TetherControlChangePayload { channel, controller, value },
                            ),
                        ),
                        _ => None,
                    }
                },
                None => None,
            }
        } else if str_eq(plug_name, "notesOn") {
            match decode_u8_fields(payload) {
                Some(fields) => {
                    let channel = lookup_u8(&fields, "channel");
                    let note = lookup_u8(&fields, "note");
                    let velocity = lookup_u8(&fields, "velocity");
                    match (channel, note, velocity) {
                        (Some(channel), Some(note), Some(velocity)) => Some(
                            MidiMessage::Note(TetherNotePayload { channel, note, velocity }),
                        ),
                        _ => None,
                    }
                },
                None => None,
            }
        } else {
            None
        }
    }
}

/// The note-on rule of the send-capable widgets: a learning mapping
/// learns the event's channel and note and does not fire; a set mapping
/// fires exactly on its own channel and note; no mapping never fires.
pub fn send_if_midi_note(mapping: &mut Option<MidiMapping>, note_message: &TetherNotePayload) -> (
    fire: bool)
    ensures
        *old(mapping) is None ==> *final(mapping) == *old(mapping) && !fire,
        *old(mapping) == Some(MidiMapping::Learning) ==> *final(mapping) == Some(
            MidiMapping::Mapped(
                MidiMapped { channel: note_message.channel, controller_or_note: note_message.note },
            ),
        ) && !fire,
        *old(mapping) matches Some(MidiMapping::Mapped(m)) ==> *final(mapping) == *old(mapping)
            && fire == (m.channel == note_message.channel && m.controller_or_note
            == note_message.note),
{
    match *mapping {
        None => false,
        Some(MidiMapping::Learning) => {
            *mapping = Some(
                MidiMapping::Mapped(
                    MidiMapped {
                        channel: note_message.channel,
                        controller_or_note: note_message.note,
                    },
                ),
            );
            false
        },
        Some(MidiMapping::Mapped(m)) => m.channel == note_message.channel && m.controller_or_note
            == note_message.note,
    }
}

/// The note-on rule of the boolean widget: as `send_if_midi_note`, and on
/// a firing match the value is toggled in place.
pub fn toggle_if_midi_note(
    mapping: &mut Option<MidiMapping>,
    value: &mut bool,
    note_message: &TetherNotePayload,
) -> (fire: bool)
    ensures
        *old(mapping) is None ==> *final(mapping) == *old(mapping) && !fire && *final(value) == *old(
            value,
        ),
        *old(mapping) == Some(MidiMapping::Learning) ==> *final(mapping) == Some(
            MidiMapping::Mapped(
                MidiMapped { channel: note_message.channel, controller_or_note: note_message.note },
            ),
        ) && !fire && *final(value) == *old(value),
        *old(mapping) matches Some(MidiMapping::Mapped(m)) ==> *final(mapping) == *old(mapping)
            && fire == (m.channel == note_message.channel && m.controller_or_note
            == note_message.note) && *final(value) == (if fire {
            !*old(value)
        } else {
            *old(value)
        }),
{
    match *mapping {
        None => false,
        Some(MidiMapping::Learning) => {
            *mapping = Some(
                MidiMapping::Mapped(
                    MidiMapped {
                        channel: note_message.channel,
                        controller_or_note: note_message.note,
                    },
                ),
            );
            false
        },
        Some(MidiMapping::Mapped(m)) => {
            if m.channel == note_message.channel && m.controller_or_note == note_message.note {
                *value = !*value;
                true
            } else {
                false
            }
        },
    }
}

/// The control-change rule of the number widgets: a learning mapping
/// learns the event's channel and controller and does not apply; a set
/// mapping applies exactly on its own channel and controller, and the
/// caller then remaps the 0..=127 control value into the widget's range
/// and sends.
pub fn update_widget_if_controllable(
    mapping: &mut Option<MidiMapping>,
    cc_message: &TetherControlChangePayload,
) -> (apply: bool)
    ensures
        *old(mapping) is None ==> *final(mapping) == *old(mapping) && !apply,
        *old(mapping) == Some(MidiMapping::Learning) ==> *final(mapping) == Some(
            MidiMapping::Mapped(
                MidiMapped {
                    channel: cc_message.channel,
                    controller_or_note: cc_message.controller,
                },
            ),
        ) && !apply,
        *old(mapping) matches Some(MidiMapping::Mapped(m)) ==> *final(mapping) == *old(mapping)
            && apply == (m.channel == cc_message.channel && m.controller_or_note
            == cc_message.controller),
{
    match *mapping {
        None => false,
        Some(MidiMapping::Learning) => {
            *mapping = Some(
                MidiMapping::Mapped(
                    MidiMapped {
                        channel: cc_message.channel,
                        controller_or_note: cc_message.controller,
                    },
                ),
            );
            false
        },
        Some(MidiMapping::Mapped(m)) => m.channel == cc_message.channel && m.controller_or_note
            == cc_message.controller,
    }
}

} // verus!
