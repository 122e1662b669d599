//! Plugs: named, directional channels bound to topics.
//!
//! A plug is built through `PlugOptionsBuilder`. The default topic of an
//! output plug is `{agent.role}/{agent.id}/{plugName}`; the default
//! subscription topic of an input plug is `+/+/{plugName}`. An explicit
//! topic override is authoritative and is never recomputed from the agent
//! identity.

use vstd::prelude::*;

use crate::agent::TetherAgent;
use crate::text::{opt_view, str_eq, str_is_single};
use crate::topic::{build_topic, topic_of};

verus! {

/// Delivery-guarantee level of a published message.
#[derive(Clone, Copy, PartialEq, Eq, Structural, Debug)]
pub enum Qos {
    /// Level 0: fire and forget.
    AtMostOnce,
    /// Level 1: delivery ensured, duplicates possible.
    AtLeastOnce,
    /// Level 2: delivered exactly once.
    ExactlyOnce,
}

impl Qos {
    /// The numeric level, 0 to 2.
    pub open spec fn spec_level(self) -> int {
        match self {
            Qos::AtMostOnce => 0,
            Qos::AtLeastOnce => 1,
            Qos::ExactlyOnce => 2,
        }
    }

    /// The numeric level, 0 to 2.
    pub fn level(&self) -> (r: u8)
        ensures
            r as int == self.spec_level(),
    {
        match self {
            Qos::AtMostOnce => 0,
            Qos::AtLeastOnce => 1,
            Qos::ExactlyOnce => 2,
        }
    }
}

/// A topic that follows the three-segment convention, with the joined
/// string kept alongside its parts.
pub struct ThreePartTopic {
    pub role: String,
    pub id: String,
    pub plug_name: String,
    pub full_topic: String,
}

impl ThreePartTopic {
    /// The joined string is exactly `role/id/plugName`.
    pub open spec fn wf(self) -> bool {
        self.full_topic@ == topic_of(self.role@, self.id@, self.plug_name@)
    }

    pub fn new(role: &str, id: &str, plug_name: &str) -> (r: ThreePartTopic)
        ensures
            r.role@ == role@,
            r.id@ == id@,
            r.plug_name@ == plug_name@,
            r.wf(),
    {
        ThreePartTopic {
            role: String::from_str(role),
            id: String::from_str(id),
            plug_name: String::from_str(plug_name),
            full_topic: build_topic(role, id, plug_name),
        }
    }

    /// Publish topics fall back to the role and id of the agent when no
    /// override is given.
    pub fn new_for_publish(
        role: Option<&str>,
        id: Option<&str>,
        plug_name: &str,
        agent: &TetherAgent,
    ) -> (r: ThreePartTopic)
        ensures
            r.role@ == match role {
                Some(s) => s@,
                None => agent.role@,
            },
            r.id@ == match id {
                Some(s) => s@,
                None => agent.id@,
            },
            r.plug_name@ == plug_name@,
            r.wf(),
    {
        let role_part = match role {
            Some(s) => s,
            None => agent.role.as_str(),
        };
        let id_part = match id {
            Some(s) => s,
            None => agent.id.as_str(),
        };
        ThreePartTopic::new(role_part, id_part, plug_name)
    }

    /// Subscribe topics fall back to the single-segment wildcard `+` for
    /// role and id.
    pub fn new_for_subscribe(plug_name: &str) -> (r: ThreePartTopic)
        ensures
            r.role@ == "+"@,
            r.id@ == "+"@,
            r.plug_name@ == plug_name@,
            r.wf(),
    {
        ThreePartTopic::new("+", "+", plug_name)
    }

    pub fn topic(&self) -> (r: &str)
        ensures
            r@ == self.full_topic@,
    {
        self.full_topic.as_str()
    }

    pub fn role(&self) -> (r: &str)
        ensures
            r@ == self.role@,
    {
        self.role.as_str()
    }

    pub fn id(&self) -> (r: &str)
        ensures
            r@ == self.id@,
    {
        self.id.as_str()
    }

    pub fn plug_name(&self) -> (r: &str)
        ensures
            r@ == self.plug_name@,
    {
        self.plug_name.as_str()
    }
}

/// A topic either following the three-segment convention or kept as a raw
/// string (a wildcard pattern, or a foreign topic seen on the bus).
pub enum TetherOrCustomTopic {
    Tether(ThreePartTopic),
    Custom(String),
}

impl TetherOrCustomTopic {
    /// The full topic string.
    pub open spec fn topic_view(self) -> Seq<char> {
        match self {
            TetherOrCustomTopic::Tether(t) => t.full_topic@,
            TetherOrCustomTopic::Custom(s) => s@,
        }
    }

    pub fn full_topic_string(&self) -> (r: String)
        ensures
            r@ == self.topic_view(),
    {
        match self {
            TetherOrCustomTopic::Tether(t) => String::from_str(t.full_topic.as_str()),
            TetherOrCustomTopic::Custom(s) => String::from_str(s.as_str()),
        }
    }
}

/// One pattern segment accepts one actual segment: it is the single-segment
/// wildcard or the exact same text.
pub open spec fn part_matches(pattern: Seq<char>, actual: Seq<char>) -> bool {
    pattern == seq!['+'] || pattern == actual
}

/// Whether an input plug bound to `mine` accepts a message that arrived on
/// `incoming`. A convention-following subscription matches segment by
/// segment with `+` as wildcard; a custom subscription matches everything
/// under the catch-all `#` and otherwise only its exact topic string; a
/// convention-following subscription never matches a foreign topic.
pub open spec fn input_matches(mine: TetherOrCustomTopic, incoming: TetherOrCustomTopic) -> bool {
    match incoming {
        TetherOrCustomTopic::Tether(inc) => match mine {
            TetherOrCustomTopic::Tether(m) => part_matches(m.role@, inc.role@) && part_matches(
                m.id@,
                inc.id@,
            ) && part_matches(m.plug_name@, inc.plug_name@),
            TetherOrCustomTopic::Custom(c) => c@ == seq!['#'] || c@ == inc.full_topic@,
        },
        TetherOrCustomTopic::Custom(inc_topic) => match mine {
            TetherOrCustomTopic::Custom(c) => c@ == seq!['#'] || c@ == inc_topic@,
            TetherOrCustomTopic::Tether(_) => false,
        },
    }
}

/// One pattern segment against one actual segment.
fn segment_matches(pattern: &str, actual: &str) -> (r: bool)
    ensures
        r == part_matches(pattern@, actual@),
{
    str_is_single(pattern, '+') || str_eq(pattern, actual)
}

/// A subscription channel: a name and the topic pattern it listens on.
pub struct InputPlugDefinition {
    pub name: String,
    pub topic: TetherOrCustomTopic,
    pub qos: Qos,
}

impl InputPlugDefinition {
    pub fn new(name: &str, topic: TetherOrCustomTopic, qos: Option<Qos>) -> (r:
        InputPlugDefinition)
        ensures
            r.name@ == name@,
            r.topic == topic,
            r.qos == qos.unwrap_or(Qos::AtLeastOnce),
    {
        InputPlugDefinition { name: String::from_str(name), topic, qos: qos.unwrap_or(
            Qos::AtLeastOnce,
        ) }
    }

    pub fn name(&self) -> (r: &str)
        ensures
            r@ == self.name@,
    {
        self.name.as_str()
    }

    pub fn topic_str(&self) -> (r: &str)
        ensures
            r@ == self.topic.topic_view(),
    {
        match &self.topic {
            TetherOrCustomTopic::Custom(s) => s.as_str(),
            TetherOrCustomTopic::Tether(t) => t.topic(),
        }
    }

    pub fn qos(&self) -> (r: Qos)
        ensures
            r == self.qos,
    {
        self.qos
    }

    /// Whether a message that arrived on `incoming` belongs to this plug.
    pub fn matches(&self, incoming: &TetherOrCustomTopic) -> (r: bool)
        ensures
            r == input_matches(self.topic, *incoming),
    {
        match incoming {
            TetherOrCustomTopic::Tether(inc) => match &self.topic {
                TetherOrCustomTopic::Tether(m) => {
                    let role_ok = segment_matches(m.role.as_str(), inc.role.as_str());
                    let id_ok = segment_matches(m.id.as_str(), inc.id.as_str());
                    let name_ok = segment_matches(m.plug_name.as_str(), inc.plug_name.as_str());
                    role_ok && id_ok && name_ok
                },
                TetherOrCustomTopic::Custom(c) => str_is_single(c.as_str(), '#') || str_eq(
                    c.as_str(),
                    inc.full_topic.as_str(),
                ),
            },
            TetherOrCustomTopic::Custom(inc_topic) => match &self.topic {
                TetherOrCustomTopic::Custom(c) => str_is_single(c.as_str(), '#') || str_eq(
                    c.as_str(),
                    inc_topic.as_str(),
                ),
                TetherOrCustomTopic::Tether(_) => false,
            },
        }
    }
}

/// A publish channel: a name, the topic it publishes on, and its delivery
/// options.
pub struct OutputPlugDefinition {
    pub name: String,
    pub topic: TetherOrCustomTopic,
    pub qos: Qos,
    pub retain: bool,
}

impl OutputPlugDefinition {
    pub fn new(name: &str, topic: TetherOrCustomTopic, qos: Option<Qos>, retain: Option<bool>) -> (
        r: OutputPlugDefinition)
        ensures
            r.name@ == name@,
            r.topic == topic,
            r.qos == qos.unwrap_or(Qos::AtLeastOnce),
            r.retain == retain.unwrap_or(false),
    {
        OutputPlugDefinition {
            name: String::from_str(name),
            topic,
            qos: qos.unwrap_or(Qos::AtLeastOnce),
            retain: retain.unwrap_or(false),
        }
    }

    pub fn name(&self) -> (r: &str)
        ensures
            r@ == self.name@,
    {
        self.name.as_str()
    }

    pub fn topic_str(&self) -> (r: &str)
        ensures
            r@ == self.topic.topic_view(),
    {
        match &self.topic {
            TetherOrCustomTopic::Custom(s) => s.as_str(),
            TetherOrCustomTopic::Tether(t) => t.topic(),
        }
    }

    pub fn qos(&self) -> (r: Qos)
        ensures
            r == self.qos,
    {
        self.qos
    }

    pub fn retain(&self) -> (r: bool)
        ensures
            r == self.retain,
    {
        self.retain
    }
}

/// A plug of either direction.
pub enum PlugDefinition {
    InputPlug(InputPlugDefinition),
    OutputPlug(OutputPlugDefinition),
}

impl PlugDefinition {
    /// The full topic string of either direction.
    pub open spec fn topic_view(self) -> Seq<char> {
        match self {
            PlugDefinition::InputPlug(p) => p.topic.topic_view(),
            PlugDefinition::OutputPlug(p) => p.topic.topic_view(),
        }
    }

    /// The plug name of either direction.
    pub open spec fn name_view(self) -> Seq<char> {
        match self {
            PlugDefinition::InputPlug(p) => p.name@,
            PlugDefinition::OutputPlug(p) => p.name@,
        }
    }

    pub fn name(&self) -> (r: &str)
        ensures
            r@ == self.name_view(),
    {
        match self {
            PlugDefinition::InputPlug(p) => p.name(),
            PlugDefinition::OutputPlug(p) => p.name(),
        }
    }

    pub fn topic(&self) -> (r: &str)
        ensures
            r@ == self.topic_view(),
    {
        match self {
            PlugDefinition::InputPlug(p) => p.topic_str(),
            PlugDefinition::OutputPlug(p) => p.topic_str(),
        }
    }

    /// Whether a message that arrived on `incoming` belongs to this plug;
    /// output plugs never match.
    pub fn matches(&self, incoming: &TetherOrCustomTopic) -> (r: bool)
        ensures
            r == match *self {
                PlugDefinition::InputPlug(p) => input_matches(p.topic, *incoming),
                PlugDefinition::OutputPlug(_) => false,
            },
    {
        match self {
            PlugDefinition::InputPlug(p) => p.matches(incoming),
            PlugDefinition::OutputPlug(_) => false,
        }
    }
}

/// Why building a plug failed.
#[derive(Clone, Copy, PartialEq, Eq, Structural, Debug)]
pub enum BuildError {
    /// An input plug needs a live connection to register its subscription.
    NotConnected,
}

/// Options for an input plug under construction.
pub struct InputPlugOptions {
    pub plug_name: String,
    pub qos: Option<Qos>,
    pub override_topic: Option<String>,
}

/// Options for an output plug under construction.
pub struct OutputPlugOptions {
    pub plug_name: String,
    pub qos: Option<Qos>,
    pub override_topic: Option<String>,
    pub retain: Option<bool>,
}

/// The final topic of a built plug: the override when one was given, else
/// the topic derived from the role and id parts and the plug name.
pub open spec fn resolved_topic(
    override_topic: Option<Seq<char>>,
    role: Seq<char>,
    id: Seq<char>,
    plug_name: Seq<char>,
) -> Seq<char> {
    match override_topic {
        Some(t) => t,
        None => topic_of(role, id, plug_name),
    }
}

/// Once a plug is given an explicit topic override, the resolved topic is
/// that override whatever the owning agent's role and id are, so a later
/// role or id change never alters it.
pub proof fn lemma_custom_topic_override_persists(
    override_topic: Seq<char>,
    role1: Seq<char>,
    id1: Seq<char>,
    role2: Seq<char>,
    id2: Seq<char>,
    plug_name: Seq<char>,
)
    ensures
        resolved_topic(Some(override_topic), role1, id1, plug_name) == resolved_topic(
            Some(override_topic),
            role2,
            id2,
            plug_name,
        ),
        resolved_topic(Some(override_topic), role1, id1, plug_name) == override_topic,
{
}

/// Fluent construction of a plug; direction is fixed at creation and the
/// setters are last-write-wins.
pub enum PlugOptionsBuilder {
    InputPlugOptions(InputPlugOptions),
    OutputPlugOptions(OutputPlugOptions),
}

impl PlugOptionsBuilder {
    pub open spec fn plug_name_view(self) -> Seq<char> {
        match self {
            PlugOptionsBuilder::InputPlugOptions(o) => o.plug_name@,
            PlugOptionsBuilder::OutputPlugOptions(o) => o.plug_name@,
        }
    }

    pub open spec fn override_topic_view(self) -> Option<Seq<char>> {
        match self {
            PlugOptionsBuilder::InputPlugOptions(o) => opt_view(o.override_topic),
            PlugOptionsBuilder::OutputPlugOptions(o) => opt_view(o.override_topic),
        }
    }

    pub open spec fn qos_spec(self) -> Option<Qos> {
        match self {
            PlugOptionsBuilder::InputPlugOptions(o) => o.qos,
            PlugOptionsBuilder::OutputPlugOptions(o) => o.qos,
        }
    }

    pub open spec fn retain_spec(self) -> Option<bool> {
        match self {
            PlugOptionsBuilder::InputPlugOptions(_) => None,
            PlugOptionsBuilder::OutputPlugOptions(o) => o.retain,
        }
    }

    pub open spec fn is_input(self) -> bool {
        self is InputPlugOptions
    }

    pub fn create_input(name: &str) -> (r: PlugOptionsBuilder)
        ensures
            r.is_input(),
            r.plug_name_view() == name@,
            r.override_topic_view() is None,
            r.qos_spec() is None,
    {
        PlugOptionsBuilder::InputPlugOptions(
            InputPlugOptions { plug_name: String::from_str(name), qos: None, override_topic: None },
        )
    }

    pub fn create_output(name: &str) -> (r: PlugOptionsBuilder)
        ensures
            !r.is_input(),
            r.plug_name_view() == name@,
            r.override_topic_view() is None,
            r.qos_spec() is None,
            r.retain_spec() is None,
    {
        PlugOptionsBuilder::OutputPlugOptions(
            OutputPlugOptions {
                plug_name: String::from_str(name),
                qos: None,
                override_topic: None,
                retain: None,
            },
        )
    }

    pub fn qos(self, qos: Option<Qos>) -> (r: PlugOptionsBuilder)
        ensures
            r.qos_spec() == qos,
            r.is_input() == self.is_input(),
            r.plug_name_view() == self.plug_name_view(),
            r.override_topic_view() == self.override_topic_view(),
            r.retain_spec() == self.retain_spec(),
    {
        match self {
            PlugOptionsBuilder::InputPlugOptions(o) => PlugOptionsBuilder::InputPlugOptions(
                InputPlugOptions { qos, ..o },
            ),
            PlugOptionsBuilder::OutputPlugOptions(o) => PlugOptionsBuilder::OutputPlugOptions(
                OutputPlugOptions { qos, ..o },
            ),
        }
    }

    /// Override the final topic; `None` returns to the derived default.
    pub fn topic(self, override_topic: Option<&str>) -> (r: PlugOptionsBuilder)
        ensures
            r.override_topic_view() == match override_topic {
                Some(t) => Some(t@),
                None => None::<Seq<char>>,
            },
            r.is_input() == self.is_input(),
            r.plug_name_view() == self.plug_name_view(),
            r.qos_spec() == self.qos_spec(),
            r.retain_spec() == self.retain_spec(),
    {
        let topic_string = match override_topic {
            Some(t) => Some(String::from_str(t)),
            None => None,
        };
        match self {
            PlugOptionsBuilder::InputPlugOptions(o) => PlugOptionsBuilder::InputPlugOptions(
                InputPlugOptions { override_topic: topic_string, ..o },
            ),
            PlugOptionsBuilder::OutputPlugOptions(o) => PlugOptionsBuilder::OutputPlugOptions(
                OutputPlugOptions { override_topic: topic_string, ..o },
            ),
        }
    }

    /// Set the broker-retained flag; meaningful for output plugs only.
    pub fn retain(self, should_retain: Option<bool>) -> (r: PlugOptionsBuilder)
        ensures
            r.retain_spec() == match self {
                PlugOptionsBuilder::InputPlugOptions(_) => None::<bool>,
                PlugOptionsBuilder::OutputPlugOptions(_) => should_retain,
            },
            r.is_input() == self.is_input(),
            r.plug_name_view() == self.plug_name_view(),
            r.override_topic_view() == self.override_topic_view(),
            r.qos_spec() == self.qos_spec(),
    {
        match self {
            PlugOptionsBuilder::InputPlugOptions(o) => PlugOptionsBuilder::InputPlugOptions(o),
            PlugOptionsBuilder::OutputPlugOptions(o) => PlugOptionsBuilder::OutputPlugOptions(
                OutputPlugOptions { retain: should_retain, ..o },
            ),
        }
    }

    /// Finalise the options into a usable plug definition.
    ///
    /// An output plug always builds, connected or not: publishing fails at
    /// send time, not at build time. An input plug registers its
    /// subscription on the agent and therefore needs a live connection;
    /// building one while disconnected is the one build-time error.
    pub fn build(self, agent: &mut TetherAgent) -> (r: Result<PlugDefinition, BuildError>)
        ensures
            self.is_input() && old(agent).is_connected_spec() ==> {
                &&& r matches Ok(p)
                &&& p matches PlugDefinition::InputPlug(ip)
                &&& ip.name@ == self.plug_name_view()
                &&& ip.qos == self.qos_spec().unwrap_or(Qos::AtLeastOnce)
                &&& p.topic_view() == resolved_topic(
                    self.override_topic_view(),
                    "+"@,
                    "+"@,
                    self.plug_name_view(),
                )
                &&& (self.override_topic_view() is Some <==> ip.topic is Custom)
                &&& final(agent).subscriptions.deep_view() == old(
                    agent,
                ).subscriptions.deep_view().push(ip.topic.topic_view())
                &&& final(agent).same_but_subscriptions(*old(agent))
            },
            self.is_input() && !old(agent).is_connected_spec() ==> r == Err::<
                PlugDefinition,
                BuildError,
            >(BuildError::NotConnected) && *final(agent) == *old(agent),
            !self.is_input() ==> {
                &&& *final(agent) == *old(agent)
                &&& r matches Ok(p)
                &&& p matches PlugDefinition::OutputPlug(op)
                &&& op.name@ == self.plug_name_view()
                &&& op.qos == self.qos_spec().unwrap_or(Qos::AtLeastOnce)
                &&& op.retain == self.retain_spec().unwrap_or(false)
                &&& p.topic_view() == resolved_topic(
                    self.override_topic_view(),
                    old(agent).role@,
                    old(agent).id@,
                    self.plug_name_view(),
                )
                &&& (self.override_topic_view() is Some <==> op.topic is Custom)
            },
    {
        match self {
            PlugOptionsBuilder::InputPlugOptions(options) => {
                if !agent.is_connected() {
                    return Err(BuildError::NotConnected);
                }
                let topic = match options.override_topic {
                    Some(custom) => TetherOrCustomTopic::Custom(custom),
                    None => TetherOrCustomTopic::Tether(
                        ThreePartTopic::new_for_subscribe(options.plug_name.as_str()),
                    ),
                };
                let plug = InputPlugDefinition::new(options.plug_name.as_str(), topic, options.qos);
                let subscribe_topic = String::from_str(plug.topic_str());
                agent.record_subscription(subscribe_topic);
                Ok(PlugDefinition::InputPlug(plug))
            },
            PlugOptionsBuilder::OutputPlugOptions(options) => {
                let topic = match options.override_topic {
                    Some(custom) => TetherOrCustomTopic::Custom(custom),
                    None => TetherOrCustomTopic::Tether(
                        ThreePartTopic::new_for_publish(
                            None,
                            None,
                            options.plug_name.as_str(),
                            agent,
                        ),
                    ),
                };
                let plug = OutputPlugDefinition::new(
                    options.plug_name.as_str(),
                    topic,
                    options.qos,
                    options.retain,
                );
                Ok(PlugDefinition::OutputPlug(plug))
            },
        }
    }
}

} // verus!
