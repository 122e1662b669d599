//! The connection agent: one broker connection handle, the local role/id
//! identity, and the publish path.
//!
//! The agent is a state machine `Unconnected -> Connecting -> Connected`;
//! a failed attempt falls back to `Unconnected` and the error is surfaced,
//! never retried from here. The transport itself lives outside this
//! library: `connect` says whether a dial is required, `connection_result`
//! records its outcome, and `publish` prepares the exact wire message for
//! the caller to hand to the transport.

use vstd::prelude::*;
use vstd::slice::slice_to_vec;

use crate::codec::{encode_value, encoded_payload, PlugValue};
use crate::plug::{BuildError, PlugDefinition, PlugOptionsBuilder, Qos};
use crate::text::opt_view;

verus! {

/// Last-known transport state.
#[derive(Clone, Copy, PartialEq, Eq, Structural, Debug)]
pub enum ConnectionState {
    Unconnected,
    Connecting,
    Connected,
}

/// Why a connection attempt failed; surfaced to the caller, never retried
/// automatically.
#[derive(Clone, Copy, PartialEq, Eq, Structural, Debug)]
pub enum ConnectError {
    Unreachable,
    AuthRejected,
    Timeout,
}

/// Why a publish failed.
#[derive(Clone, Copy, PartialEq, Eq, Structural, Debug)]
pub enum PublishError {
    /// Publishing needs a live connection; nothing is buffered.
    NotConnected,
    /// The value could not be encoded for the wire.
    EncodeFailed,
}

/// A fully prepared outgoing message: what the transport must send, with
/// the plug's delivery options.
pub struct OutboundMessage {
    pub topic: String,
    pub payload: Vec<u8>,
    pub qos: Qos,
    pub retain: bool,
}

/// Connection options; unset fields fall back to the documented defaults
/// on `build`: host `localhost`, port 1883, id `any`, empty credentials.
#[derive(Clone)]
pub struct TetherAgentOptionsBuilder {
    pub role: String,
    pub id: Option<String>,
    pub host: Option<String>,
    pub port: Option<u16>,
    pub username: Option<String>,
    pub password: Option<String>,
    pub auto_connect: bool,
}

impl TetherAgentOptionsBuilder {
    pub fn new(role: &str) -> (r: TetherAgentOptionsBuilder)
        ensures
            r.role@ == role@,
            r.id is None,
            r.host is None,
            r.port is None,
            r.username is None,
            r.password is None,
            r.auto_connect == true,
    {
        TetherAgentOptionsBuilder {
            role: String::from_str(role),
            id: None,
            host: None,
            port: None,
            username: None,
            password: None,
            auto_connect: true,
        }
    }

    pub fn id(self, id: Option<&str>) -> (r: TetherAgentOptionsBuilder)
        ensures
            opt_view(r.id) == match id {
                Some(s) => Some(s@),
                None => None::<Seq<char>>,
            },
            r.role == self.role,
            r.host == self.host,
            r.port == self.port,
            r.username == self.username,
            r.password == self.password,
            r.auto_connect == self.auto_connect,
    {
        TetherAgentOptionsBuilder {
            id: match id {
                Some(s) => Some(String::from_str(s)),
                None => None,
            },
            ..self
        }
    }

    pub fn host(self, host: Option<&str>) -> (r: TetherAgentOptionsBuilder)
        ensures
            opt_view(r.host) == match host {
                Some(s) => Some(s@),
                None => None::<Seq<char>>,
            },
            r.role == self.role,
            r.id == self.id,
            r.port == self.port,
            r.username == self.username,
            r.password == self.password,
            r.auto_connect == self.auto_connect,
    {
        TetherAgentOptionsBuilder {
            host: match host {
                Some(s) => Some(String::from_str(s)),
                None => None,
            },
            ..self
        }
    }

    pub fn port(self, port: Option<u16>) -> (r: TetherAgentOptionsBuilder)
        ensures
            r.port == port,
            r.role == self.role,
            r.id == self.id,
            r.host == self.host,
            r.username == self.username,
            r.password == self.password,
            r.auto_connect == self.auto_connect,
    {
        TetherAgentOptionsBuilder { port, ..self }
    }

    pub fn username(self, username: Option<&str>) -> (r: TetherAgentOptionsBuilder)
        ensures
            opt_view(r.username) == match username {
                Some(s) => Some(s@),
                None => None::<Seq<char>>,
            },
            r.role == self.role,
            r.id == self.id,
            r.host == self.host,
            r.port == self.port,
            r.password == self.password,
            r.auto_connect == self.auto_connect,
    {
        TetherAgentOptionsBuilder {
            username: match username {
                Some(s) => Some(String::from_str(s)),
                None => None,
            },
            ..self
        }
    }

    pub fn password(self, password: Option<&str>) -> (r: TetherAgentOptionsBuilder)
        ensures
            opt_view(r.password) == match password {
                Some(s) => Some(s@),
                None => None::<Seq<char>>,
            },
            r.role == self.role,
            r.id == self.id,
            r.host == self.host,
            r.port == self.port,
            r.username == self.username,
            r.auto_connect == self.auto_connect,
    {
        TetherAgentOptionsBuilder {
            password: match password {
                Some(s) => Some(String::from_str(s)),
                None => None,
            },
            ..self
        }
    }

    pub fn auto_connect(self, should_auto_connect: bool) -> (r: TetherAgentOptionsBuilder)
        ensures
            r.auto_connect == should_auto_connect,
            r.role == self.role,
            r.id == self.id,
            r.host == self.host,
            r.port == self.port,
            r.username == self.username,
            r.password == self.password,
    {
        TetherAgentOptionsBuilder { auto_connect: should_auto_connect, ..self }
    }

    /// Finalise the options into an unconnected agent, substituting the
    /// documented defaults for unset fields. Connecting is a separate step,
    /// whether or not `auto_connect` asks the surrounding application to
    /// take it at once.
    pub fn build(self) -> (r: TetherAgent)
        ensures
            r.role@ == self.role@,
            r.id@ == match self.id {
                Some(s) => s@,
                None => "any"@,
            },
            r.host@ == match self.host {
                Some(s) => s@,
                None => "localhost"@,
            },
            r.port == self.port.unwrap_or(1883),
            r.username@ == match self.username {
                Some(s) => s@,
                None => ""@,
            },
            r.password@ == match self.password {
                Some(s) => s@,
                None => ""@,
            },
            r.state == ConnectionState::Unconnected,
            r.subscriptions@ =~= Seq::<String>::empty(),
    {
        proof {
            reveal_strlit("");
            assert(""@ =~= Seq::<char>::empty());
        }
        TetherAgent {
            role: self.role,
            id: match self.id {
                Some(s) => s,
                None => String::from_str("any"),
            },
            host: match self.host {
                Some(s) => s,
                None => String::from_str("localhost"),
            },
            port: self.port.unwrap_or(1883),
            username: match self.username {
                Some(s) => s,
                None => String::new(),
            },
            password: match self.password {
                Some(s) => s,
                None => String::new(),
            },
            state: ConnectionState::Unconnected,
            subscriptions: Vec::new(),
        }
    }
}

/// The connection agent. `subscriptions` records every topic pattern an
/// input plug has registered while connected, in registration order; the
/// transport mirrors it on the broker.
pub struct TetherAgent {
    pub role: String,
    pub id: String,
    pub host: String,
    pub port: u16,
    pub username: String,
    pub password: String,
    pub state: ConnectionState,
    pub subscriptions: Vec<String>,
}

impl TetherAgent {
    /// Whether the last-known transport state is connected.
    pub open spec fn is_connected_spec(self) -> bool {
        self.state is Connected
    }

    /// Everything but the subscription list agrees with `other`.
    pub open spec fn same_but_subscriptions(self, other: TetherAgent) -> bool {
        &&& self.role == other.role
        &&& self.id == other.id
        &&& self.host == other.host
        &&& self.port == other.port
        &&& self.username == other.username
        &&& self.password == other.password
        &&& self.state == other.state
    }

    /// Everything but the transport state agrees with `other`.
    pub open spec fn same_but_state(self, other: TetherAgent) -> bool {
        &&& self.role == other.role
        &&& self.id == other.id
        &&& self.host == other.host
        &&& self.port == other.port
        &&& self.username == other.username
        &&& self.password == other.password
        &&& self.subscriptions == other.subscriptions
    }

    /// Cheap poll of the last-known transport state; no I/O behind it.
    pub fn is_connected(&self) -> (r: bool)
        ensures
            r == self.is_connected_spec(),
    {
        match self.state {
            ConnectionState::Connected => true,
            _ => false,
        }
    }

    pub fn role(&self) -> (r: &str)
        ensures
            r@ == self.role@,
    {
        self.role.as_str()
    }

    pub fn id(&self) -> (r: &str)
        ensures
            r@ == self.id@,
    {
        self.id.as_str()
    }

    /// The URI the transport dials: `mqtt://{host}:{port}/`.
    pub fn broker_uri(&self) -> (r: String)
        ensures
            r@ == "mqtt://"@ + self.host@ + seq![':'] + crate::text::dec_rep(self.port as int)
                + seq!['/'],
    {
        proof {
            reveal_strlit(":");
            reveal_strlit("/");
            assert(":"@ =~= seq![':']);
            assert("/"@ =~= seq!['/']);
        }
        let mut out = String::from_str("mqtt://");
        out.append(self.host.as_str());
        out.append(":");
        crate::text::push_decimal(&mut out, self.port);
        out.append("/");
        out
    }

    /// The agent's role, id and broker URI, for display.
    pub fn description(&self) -> (r: (String, String, String))
        ensures
            r.0@ == self.role@,
            r.1@ == self.id@,
            r.2@ == "mqtt://"@ + self.host@ + seq![':'] + crate::text::dec_rep(self.port as int)
                + seq!['/'],
    {
        (self.role.clone(), self.id.clone(), self.broker_uri())
    }

    /// Update the role part of the identity; already-built plugs keep
    /// their topics, only later builds see the new role.
    pub fn set_role(&mut self, role: &str)
        ensures
            final(self).role@ == role@,
            final(self).id == old(self).id,
            final(self).host == old(self).host,
            final(self).port == old(self).port,
            final(self).username == old(self).username,
            final(self).password == old(self).password,
            final(self).state == old(self).state,
            final(self).subscriptions == old(self).subscriptions,
    {
        self.role = String::from_str(role);
    }

    /// Update the id part of the identity; already-built plugs keep their
    /// topics, only later builds see the new id.
    pub fn set_id(&mut self, id: &str)
        ensures
            final(self).id@ == id@,
            final(self).role == old(self).role,
            final(self).host == old(self).host,
            final(self).port == old(self).port,
            final(self).username == old(self).username,
            final(self).password == old(self).password,
            final(self).state == old(self).state,
            final(self).subscriptions == old(self).subscriptions,
    {
        self.id = String::from_str(id);
    }

    /// Record a registered subscription topic.
    pub fn record_subscription(&mut self, topic: String)
        ensures
            final(self).subscriptions@ == old(self).subscriptions@.push(topic),
            final(self).same_but_subscriptions(*old(self)),
    {
        self.subscriptions.push(topic);
    }

    /// Begin connecting. A no-op on an agent that is already connected or
    /// mid-attempt; from `Unconnected` it moves to `Connecting` and returns
    /// true, telling the caller to dial the broker and report back through
    /// `connection_result`.
    pub fn connect(&mut self) -> (dial: bool)
        ensures
            final(self).same_but_state(*old(self)),
            old(self).state is Unconnected ==> final(self).state is Connecting && dial,
            !(old(self).state is Unconnected) ==> *final(self) == *old(self) && !dial,
    {
        match self.state {
            ConnectionState::Unconnected => {
                self.state = ConnectionState::Connecting;
                true
            },
            _ => false,
        }
    }

    /// Record the outcome of a dial: success lands in `Connected`, failure
    /// falls back to `Unconnected` and hands the cause to the caller, which
    /// decides whether to try again.
    pub fn connection_result(&mut self, outcome: Option<ConnectError>) -> (r: Result<
        (),
        ConnectError,
    >)
        requires
            old(self).state is Connecting,
        ensures
            final(self).same_but_state(*old(self)),
            match outcome {
                None => final(self).state is Connected && r is Ok,
                Some(e) => final(self).state is Unconnected && r == Err::<(), ConnectError>(e),
            },
    {
        match outcome {
            None => {
                self.state = ConnectionState::Connected;
                Ok(())
            },
            Some(e) => {
                self.state = ConnectionState::Unconnected;
                Err(e)
            },
        }
    }

    /// Prepare a raw payload for the wire on an output plug's topic, with
    /// the plug's delivery options. Fails exactly when the agent is not
    /// connected; nothing is buffered for later.
    pub fn publish(&self, plug: &PlugDefinition, payload: Option<&[u8]>) -> (r: Result<
        OutboundMessage,
        PublishError,
    >)
        requires
            plug is OutputPlug,
        ensures
            !self.is_connected_spec() ==> r == Err::<OutboundMessage, PublishError>(
                PublishError::NotConnected,
            ),
            self.is_connected_spec() ==> {
                &&& r matches Ok(m)
                &&& m.topic@ == plug.topic_view()
                &&& m.payload@ == match payload {
                    Some(p) => p@,
                    None => Seq::<u8>::empty(),
                }
                &&& m.qos == plug->OutputPlug_0.qos
                &&& m.retain == plug->OutputPlug_0.retain
            },
    {
        if !self.is_connected() {
            return Err(PublishError::NotConnected);
        }
        match plug {
            PlugDefinition::OutputPlug(op) => {
                let bytes: Vec<u8> = match payload {
                    Some(p) => slice_to_vec(p),
                    None => Vec::new(),
                };
                proof {
                    assert(match payload {
                        Some(p) => bytes@ == p@,
                        None => bytes@ =~= Seq::<u8>::empty(),
                    });
                }
                Ok(
                    OutboundMessage {
                        topic: String::from_str(op.topic_str()),
                        payload: bytes,
                        qos: op.qos,
                        retain: op.retain,
                    },
                )
            },
            PlugDefinition::InputPlug(_) => Err(PublishError::NotConnected),
        }
    }

    /// Encode one application value and prepare it for the wire. Fails on
    /// a value that cannot be encoded (invalid JSON text), and otherwise
    /// exactly when the agent is not connected.
    pub fn encode_and_publish(&self, plug: &PlugDefinition, data: &PlugValue) -> (r: Result<
        OutboundMessage,
        PublishError,
    >)
        requires
            plug is OutputPlug,
        ensures
            encoded_payload(*data) is None ==> r == Err::<OutboundMessage, PublishError>(
                PublishError::EncodeFailed,
            ),
            encoded_payload(*data) is Some && !self.is_connected_spec() ==> r == Err::<
                OutboundMessage,
                PublishError,
            >(PublishError::NotConnected),
            encoded_payload(*data) is Some && self.is_connected_spec() ==> {
                &&& r matches Ok(m)
                &&& m.topic@ == plug.topic_view()
                &&& m.payload@ == encoded_payload(*data).unwrap()
                &&& m.qos == plug->OutputPlug_0.qos
                &&& m.retain == plug->OutputPlug_0.retain
            },
    {
        match encode_value(data) {
            Some(bytes) => self.publish(plug, Some(bytes.as_slice())),
            None => Err(PublishError::EncodeFailed),
        }
    }

    /// Build an input plug in one call: subscribe to `plug_name` traffic,
    /// or to an explicit topic pattern.
    pub fn create_input_plug(
        &mut self,
        plug_name: &str,
        qos: Option<Qos>,
        override_topic: Option<&str>,
    ) -> (r: Result<PlugDefinition, BuildError>)
        ensures
            !old(self).is_connected_spec() ==> r == Err::<PlugDefinition, BuildError>(
                BuildError::NotConnected,
            ) && *final(self) == *old(self),
            old(self).is_connected_spec() ==> {
                &&& r matches Ok(p)
                &&& p is InputPlug
                &&& p.name_view() == plug_name@
                &&& p.topic_view() == crate::plug::resolved_topic(
                    match override_topic {
                        Some(t) => Some(t@),
                        None => None,
                    },
                    "+"@,
                    "+"@,
                    plug_name@,
                )
                &&& final(self).subscriptions.deep_view() == old(
                    self,
                ).subscriptions.deep_view().push(p.topic_view())
                &&& final(self).same_but_subscriptions(*old(self))
            },
    {
        PlugOptionsBuilder::create_input(plug_name).qos(qos).topic(override_topic).build(self)
    }

    /// Build an output plug in one call: publish under the agent identity,
    /// or on an explicit topic.
    pub fn create_output_plug(
        &mut self,
        plug_name: &str,
        qos: Option<Qos>,
        override_topic: Option<&str>,
    ) -> (r: Result<PlugDefinition, BuildError>)
        ensures
            *final(self) == *old(self),
            r matches Ok(p),
            r matches Ok(p) ==> {
                &&& p is OutputPlug
                &&& p.name_view() == plug_name@
                &&& p.topic_view() == crate::plug::resolved_topic(
                    match override_topic {
                        Some(t) => Some(t@),
                        None => None,
                    },
                    old(self).role@,
                    old(self).id@,
                    plug_name@,
                )
            },
    {
        PlugOptionsBuilder::create_output(plug_name).qos(qos).topic(override_topic).build(self)
    }
}

} // verus!
