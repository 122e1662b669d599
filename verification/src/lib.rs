//! Messaging-agent and topic-introspection library for a pub/sub control
//! panel: the three-segment topic convention, plug definitions with the
//! default-topic derivation rule, a connection-agent state machine, payload
//! encoding and decoding, and rolling traffic statistics.

pub mod agent;
pub mod codec;
pub mod insights;
pub mod message_log;
pub mod midi_mapping;
pub mod model;
pub mod settings;
pub mod plug;
pub mod text;
pub mod topic;
pub mod widgets;
pub mod worker;
