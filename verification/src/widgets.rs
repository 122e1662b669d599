//! The options common to all widgets and the non-visual widget state:
//! each widget owns an output plug built under the default-topic rule,
//! and rebuilding the plug on a rename respects a custom-topic override.

use vstd::prelude::*;

use crate::agent::{OutboundMessage, PublishError, TetherAgent};
use crate::codec::{json_to_msgpack, json_valid, msgpack_of_json};
use crate::midi_mapping::MidiMapping;
use crate::plug::{resolved_topic, PlugDefinition, PlugOptionsBuilder, Qos};
use crate::text::push_char;

verus! {

/// Whitespace for the purposes of name trimming.
pub open spec fn is_ws(c: char) -> bool {
    c == ' ' || c == '\t' || c == '\n' || c == '\r'
}

/// Every space replaced by an underscore.
pub open spec fn underscored(s: Seq<char>) -> Seq<char> {
    Seq::new(s.len(), |i: int| if s[i] == ' ' { '_' } else { s[i] })
}

/// The string with leading whitespace removed.
pub open spec fn trim_front(s: Seq<char>) -> Seq<char>
    decreases s.len(),
{
    if s.len() > 0 && is_ws(s[0]) {
        trim_front(s.drop_first())
    } else {
        s
    }
}

/// The string with trailing whitespace removed.
pub open spec fn trim_back(s: Seq<char>) -> Seq<char>
    decreases s.len(),
{
    if s.len() > 0 && is_ws(s[s.len() - 1]) {
        trim_back(s.drop_last())
    } else {
        s
    }
}

/// A widget name reduced to a plug name: spaces become underscores, then
/// the ends are trimmed of whitespace.
pub open spec fn shortened(s: Seq<char>) -> Seq<char> {
    trim_back(trim_front(underscored(s)))
}

proof fn lemma_trim_front_at(s: Seq<char>, i: int)
    requires
        0 <= i <= s.len(),
        forall|k: int| 0 <= k < i ==> is_ws(s[k]),
        i < s.len() ==> !is_ws(s[i]),
    ensures
        trim_front(s) == s.skip(i),
    decreases i,
{
    if i == 0 {
        assert(s.skip(0) =~= s);
    } else {
        lemma_trim_front_at(s.drop_first(), i - 1);
        assert(s.drop_first().skip(i - 1) =~= s.skip(i));
    }
}

proof fn lemma_trim_back_at(s: Seq<char>, j: int)
    requires
        0 <= j <= s.len(),
        forall|k: int| j <= k < s.len() ==> is_ws(s[k]),
        j > 0 ==> !is_ws(s[j - 1]),
    ensures
        trim_back(s) == s.take(j),
    decreases s.len() - j,
{
    if j == s.len() {
        assert(s.take(j) =~= s);
    } else {
        lemma_trim_back_at(s.drop_last(), j);
        assert(s.drop_last().take(j) =~= s.take(j));
    }
}

fn is_ws_char(c: char) -> (r: bool)
    ensures
        r == is_ws(c),
{
    c == ' ' || c == '\t' || c == '\n' || c == '\r'
}

/// Reduce a widget name to a plug name: whitespace replaced with
/// underscores, trimmed.
pub fn shortened_name(full_name: &str) -> (r: String)
    ensures
        r@ == shortened(full_name@),
{
    let ghost u = underscored(full_name@);
    let len = full_name.unicode_len();
    let mut replaced = String::new();
    let mut i: usize = 0;
    while i < len
        invariant
            0 <= i <= len,
            len == full_name@.len(),
            u == underscored(full_name@),
            replaced@ == u.take(i as int),
        decreases len - i,
    {
        let c = full_name.get_char(i);
        if c == ' ' {
            push_char(&mut replaced, '_');
        } else {
            push_char(&mut replaced, c);
        }
        proof {
            assert(replaced@ =~= u.take(i + 1 as int));
        }
        i = i + 1;
    }
    proof {
        assert(u.take(len as int) =~= u);
    }
    let trimmed = replaced.as_str();
    let mut a: usize = 0;
    while a < len && is_ws_char(trimmed.get_char(a))
        invariant
            0 <= a <= len,
            len == u.len(),
            trimmed@ == u,
            forall|k: int| 0 <= k < a ==> is_ws(u[k]),
        decreases len - a,
    {
        a = a + 1;
    }
    let mut b: usize = len;
    while b > a && is_ws_char(trimmed.get_char(b - 1))
        invariant
            a <= b <= len,
            len == u.len(),
            trimmed@ == u,
            forall|k: int| b <= k < len ==> is_ws(u[k]),
        decreases b,
    {
        b = b - 1;
    }
    proof {
        lemma_trim_front_at(u, a as int);
        if a < len && b == a {
            assert(!is_ws(u[a as int]));
            assert(is_ws(u[b as int]));
        }
        assert(forall|k: int| (b - a) <= k < u.skip(a as int).len() ==> is_ws(
            #[trigger] u.skip(a as int)[k],
        ));
        assert(b > a ==> !is_ws(u.skip(a as int)[b - a - 1]));
        lemma_trim_back_at(u.skip(a as int), b - a);
        assert(u.skip(a as int).take(b - a) =~= u.subrange(a as int, b as int));
    }
    String::from_str(trimmed.substring_char(a, b))
}

/// Serde-style default for a widget's JSON-validity flag: valid state is
/// not known on load, so a widget's text is taken as valid until parsed
/// otherwise.
pub fn assume_valid() -> (r: bool)
    ensures
        r == true,
{
    true
}

/// Default for the auto-send flag: send on every value change.
pub fn default_auto_send() -> (r: bool)
    ensures
        r == true,
{
    true
}

/// Default delivery level for a widget's plug.
pub fn default_qos() -> (r: Qos)
    ensures
        r == Qos::AtLeastOnce,
{
    Qos::AtLeastOnce
}

/// User-defined options common to all widgets.
pub struct Common {
    pub name: String,
    pub description: String,
    pub plug: PlugDefinition,
    pub midi_mapping: Option<MidiMapping>,
    pub is_edit_mode: bool,
    pub use_custom_topic: bool,
    pub custom_topic: String,
    pub plug_name: String,
    pub qos: Qos,
    pub retain: bool,
    pub auto_send: bool,
}

impl Common {
    /// A widget's plug always publishes.
    pub open spec fn wf(self) -> bool {
        self.plug is OutputPlug
    }

    /// Create the common state of a new widget, building its output plug
    /// under the agent's identity (or on the custom topic, when given).
    pub fn new(
        widget_name: &str,
        description: Option<&str>,
        plug_name: &str,
        custom_topic: Option<&str>,
        agent: &mut TetherAgent,
    ) -> (r: Common)
        ensures
            r.wf(),
            *final(agent) == *old(agent),
            r.name@ == widget_name@,
            r.description@ == match description {
                Some(d) => d@,
                None => "no description provided"@,
            },
            r.plug.name_view() == plug_name@,
            r.plug.topic_view() == resolved_topic(
                match custom_topic {
                    Some(t) => Some(t@),
                    None => None,
                },
                old(agent).role@,
                old(agent).id@,
                plug_name@,
            ),
            r.midi_mapping is None,
            r.is_edit_mode == true,
            r.use_custom_topic == false,
            r.custom_topic@ == Seq::<char>::empty(),
            r.plug_name@ == shortened(widget_name@),
            r.qos == Qos::AtMostOnce,
            r.retain == false,
            r.auto_send == true,
    {
        let plug = match PlugOptionsBuilder::create_output(plug_name).topic(custom_topic).build(
            agent,
        ) {
            Ok(p) => p,
            Err(_) => unreached(),
        };
        proof {
            reveal_strlit("");
            assert(""@ =~= Seq::<char>::empty());
        }
        Common {
            name: String::from_str(widget_name),
            description: match description {
                Some(d) => String::from_str(d),
                None => String::from_str("no description provided"),
            },
            plug,
            midi_mapping: None,
            is_edit_mode: true,
            use_custom_topic: false,
            custom_topic: String::new(),
            plug_name: shortened_name(widget_name),
            qos: Qos::AtMostOnce,
            retain: false,
            auto_send: true,
        }
    }

    pub fn is_edit_mode(&self) -> (r: bool)
        ensures
            r == self.is_edit_mode,
    {
        self.is_edit_mode
    }

    pub fn set_edit_mode(&mut self, value: bool)
        ensures
            *final(self) == (Common { is_edit_mode: value, ..*old(self) }),
    {
        self.is_edit_mode = value;
    }
}

/// Rebuild a widget's plug from its edited options: the topic returns to
/// the derived default unless the custom-topic override is in force, in
/// which case the override text is authoritative.
pub fn update_plug_definition(common: &mut Common, agent: &mut TetherAgent)
    ensures
        *final(agent) == *old(agent),
        final(common).wf(),
        final(common).plug.name_view() == old(common).plug_name@,
        final(common).plug.topic_view() == resolved_topic(
            if old(common).use_custom_topic {
                Some(old(common).custom_topic@)
            } else {
                None
            },
            old(agent).role@,
            old(agent).id@,
            old(common).plug_name@,
        ),
        (final(common).plug matches PlugDefinition::OutputPlug(op) && op.qos == old(common).qos
            && op.retain == old(common).retain),
        final(common).name == old(common).name,
        final(common).description == old(common).description,
        final(common).midi_mapping == old(common).midi_mapping,
        final(common).is_edit_mode == old(common).is_edit_mode,
        final(common).use_custom_topic == old(common).use_custom_topic,
        final(common).custom_topic == old(common).custom_topic,
        final(common).plug_name == old(common).plug_name,
        final(common).qos == old(common).qos,
        final(common).retain == old(common).retain,
        final(common).auto_send == old(common).auto_send,
{
    let override_topic: Option<&str> = if common.use_custom_topic {
        Some(common.custom_topic.as_str())
    } else {
        None
    };
    let plug = match PlugOptionsBuilder::create_output(common.plug_name.as_str()).qos(
        Some(common.qos),
    ).retain(Some(common.retain)).topic(override_topic).build(agent) {
        Ok(p) => p,
        Err(_) => unreached(),
    };
    common.plug = plug;
}

/// A true-or-false widget.
pub struct BoolWidget {
    pub common: Common,
    pub value: bool,
}

impl BoolWidget {
    pub fn new(
        widget_name: &str,
        description: Option<&str>,
        plug_name: &str,
        custom_topic: Option<&str>,
        init_state: bool,
        agent: &mut TetherAgent,
    ) -> (r: BoolWidget)
        ensures
            r.common.wf(),
            *final(agent) == *old(agent),
            r.common.name@ == widget_name@,
            r.common.plug.topic_view() == resolved_topic(
                match custom_topic {
                    Some(t) => Some(t@),
                    None => None,
                },
                old(agent).role@,
                old(agent).id@,
                plug_name@,
            ),
            r.value == init_state,
    {
        BoolWidget {
            common: Common::new(widget_name, description, plug_name, custom_topic, agent),
            value: init_state,
        }
    }

    pub fn common(&self) -> (r: &Common)
        ensures
            r == &self.common,
    {
        &self.common
    }

    pub fn value(&self) -> (r: &bool)
        ensures
            r == &self.value,
    {
        &self.value
    }
}

/// A widget that sends an event with no payload.
pub struct EmptyWidget {
    pub common: Common,
}

impl EmptyWidget {
    pub fn new(
        widget_name: &str,
        description: Option<&str>,
        plug_name: &str,
        custom_topic: Option<&str>,
        agent: &mut TetherAgent,
    ) -> (r: EmptyWidget)
        ensures
            r.common.wf(),
            *final(agent) == *old(agent),
            r.common.name@ == widget_name@,
            r.common.plug.topic_view() == resolved_topic(
                match custom_topic {
                    Some(t) => Some(t@),
                    None => None,
                },
                old(agent).role@,
                old(agent).id@,
                plug_name@,
            ),
    {
        EmptyWidget { common: Common::new(widget_name, description, plug_name, custom_topic, agent) }
    }

    pub fn common(&self) -> (r: &Common)
        ensures
            r == &self.common,
    {
        &self.common
    }
}

/// 8-bit colour including alpha.
pub type ColourRGBA8 = [u8; 4];

/// A colour-picker widget.
pub struct ColourWidget {
    pub common: Common,
    pub value: ColourRGBA8,
}

impl ColourWidget {
    pub fn new(
        widget_name: &str,
        description: Option<&str>,
        plug_name: &str,
        custom_topic: Option<&str>,
        agent: &mut TetherAgent,
    ) -> (r: ColourWidget)
        ensures
            r.common.wf(),
            *final(agent) == *old(agent),
            r.common.name@ == widget_name@,
            r.common.plug.topic_view() == resolved_topic(
                match custom_topic {
                    Some(t) => Some(t@),
                    None => None,
                },
                old(agent).role@,
                old(agent).id@,
                plug_name@,
            ),
            r.value@ =~= seq![255u8, 255u8, 255u8, 255u8],
    {
        ColourWidget {
            common: Common::new(widget_name, description, plug_name, custom_topic, agent),
            value: [255, 255, 255, 255],
        }
    }

    pub fn common(&self) -> (r: &Common)
        ensures
            r == &self.common,
    {
        &self.common
    }

    pub fn value(&self) -> (r: &ColourRGBA8)
        ensures
            r == &self.value,
    {
        &self.value
    }
}

/// A widget that publishes free-form JSON entered as text.
pub struct GenericJSONWidget {
    pub common: Common,
    pub value: String,
    pub is_valid_json: bool,
}

impl GenericJSONWidget {
    pub fn new(
        widget_name: &str,
        description: Option<&str>,
        plug_name: &str,
        custom_topic: Option<&str>,
        agent: &mut TetherAgent,
    ) -> (r: GenericJSONWidget)
        ensures
            r.common.wf(),
            *final(agent) == *old(agent),
            r.common.name@ == widget_name@,
            r.common.plug.topic_view() == resolved_topic(
                match custom_topic {
                    Some(t) => Some(t@),
                    None => None,
                },
                old(agent).role@,
                old(agent).id@,
                plug_name@,
            ),
            r.value@ == "{\"answer\":42}"@,
            r.is_valid_json == true,
    {
        GenericJSONWidget {
            common: Common::new(widget_name, description, plug_name, custom_topic, agent),
            value: String::from_str("{\"answer\":42}"),
            is_valid_json: true,
        }
    }

    /// Replace the JSON text and re-check its validity.
    pub fn set_json_text(&mut self, text: String)
        ensures
            final(self).value == text,
            final(self).is_valid_json == json_valid(text@),
            final(self).common == old(self).common,
    {
        self.is_valid_json = json_to_msgpack(text.as_str()).is_some();
        self.value = text;
    }

    /// Encode the widget's JSON text and prepare it for the wire; fails
    /// on invalid JSON, and otherwise exactly when the agent is not
    /// connected.
    pub fn publish_from_json_string(&self, agent: &TetherAgent) -> (r: Result<
        OutboundMessage,
        PublishError,
    >)
        requires
            self.common.wf(),
        ensures
            !json_valid(self.value@) ==> r == Err::<OutboundMessage, PublishError>(
                PublishError::EncodeFailed,
            ),
            json_valid(self.value@) && !agent.is_connected_spec() ==> r == Err::<
                OutboundMessage,
                PublishError,
            >(PublishError::NotConnected),
            json_valid(self.value@) && agent.is_connected_spec() ==> {
                &&& r matches Ok(m)
                &&& m.topic@ == self.common.plug.topic_view()
                &&& m.payload@ == msgpack_of_json(self.value@)
            },
    {
        match json_to_msgpack(self.value.as_str()) {
            Some(payload) => agent.publish(&self.common.plug, Some(payload.as_slice())),
            None => Err(PublishError::EncodeFailed),
        }
    }

    pub fn common(&self) -> (r: &Common)
        ensures
            r == &self.common,
    {
        &self.common
    }

    pub fn value(&self) -> (r: &String)
        ensures
            r == &self.value,
    {
        &self.value
    }
}

} // verus!
