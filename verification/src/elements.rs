//! How the elements of a sink are set up.

use crate::protocol::SessionId;
use vstd::prelude::*;

verus! {

/// The value of a property.
#[derive(Debug, PartialEq, Eq)]
pub enum PropertyValue {
    /// A value in the notation of the property's type.
    Text(String),
    Flag(bool),
    Number(u32),
}

/// A property of an element.
#[derive(Debug, PartialEq, Eq)]
pub struct Property {
    pub name: &'static str,
    pub value: PropertyValue,
}

/// An element that is to be made: the factory, and the properties in the order
/// in which they are set.
#[derive(Debug, PartialEq, Eq)]
pub struct ElementPlan {
    pub factory: &'static str,
    pub properties: Vec<Property>,
}

/// What a [`PropertyValue`] holds.
#[verifier::ext_equal]
pub enum ValueModel {
    Text(Seq<char>),
    Flag(bool),
    Number(u32),
}

impl View for PropertyValue {
    type V = ValueModel;

    open spec fn view(&self) -> ValueModel {
        match self {
            PropertyValue::Text(text) => ValueModel::Text(text@),
            PropertyValue::Flag(flag) => ValueModel::Flag(*flag),
            PropertyValue::Number(number) => ValueModel::Number(*number),
        }
    }
}

impl View for Property {
    type V = (Seq<char>, ValueModel);

    open spec fn view(&self) -> (Seq<char>, ValueModel) {
        (self.name@, self.value@)
    }
}

impl View for ElementPlan {
    type V = (Seq<char>, Seq<(Seq<char>, ValueModel)>);

    open spec fn view(&self) -> (Seq<char>, Seq<(Seq<char>, ValueModel)>) {
        (self.factory@, self.properties@.map_values(|property: Property| property@))
    }
}

/// The queue before the WebRTC element. It throws old data away and has no limit
/// in buffers.
pub fn queue_plan() -> (r: ElementPlan)
    ensures
        r@ == (
            "queue"@,
            seq![
                ("leaky"@, ValueModel::Text("downstream"@)),
                ("silent"@, ValueModel::Flag(true)),
                ("flush-on-eos"@, ValueModel::Flag(true)),
                ("max-size-buffers"@, ValueModel::Number(0)),
            ],
        ),
{
    let properties = vec![
        Property { name: "leaky", value: PropertyValue::Text("downstream".to_owned()) },
        Property { name: "silent", value: PropertyValue::Flag(true) },
        Property { name: "flush-on-eos", value: PropertyValue::Flag(true) },
        Property { name: "max-size-buffers", value: PropertyValue::Number(0) },
    ];
    let plan = ElementPlan { factory: "queue", properties };
    assert(plan@.1 =~= seq![
        ("leaky"@, ValueModel::Text("downstream"@)),
        ("silent"@, ValueModel::Flag(true)),
        ("flush-on-eos"@, ValueModel::Flag(true)),
        ("max-size-buffers"@, ValueModel::Number(0)),
    ]);
    plan
}

/// The WebRTC element of a session, with the servers through which it looks for
/// a way to its peer. Its name tells the session.
pub fn webrtcbin_plan(session_id: &SessionId, stun_server: &str, turn_server: &str) -> (r:
    ElementPlan)
    ensures
        r@ == (
            "webrtcbin"@,
            seq![
                (
                    "name"@,
                    ValueModel::Text("webrtcbin-"@ + crate::protocol::hyphenated(session_id.bits)),
                ),
                ("async-handling"@, ValueModel::Flag(true)),
                ("latency"@, ValueModel::Number(0)),
                ("stun-server"@, ValueModel::Text(stun_server@)),
                ("turn-server"@, ValueModel::Text(turn_server@)),
            ],
        ),
{
    let name = "webrtcbin-".to_owned().concat(session_id.text().as_str());
    let properties = vec![
        Property { name: "name", value: PropertyValue::Text(name) },
        Property { name: "async-handling", value: PropertyValue::Flag(true) },
        Property { name: "latency", value: PropertyValue::Number(0) },
        Property { name: "stun-server", value: PropertyValue::Text(stun_server.to_owned()) },
        Property { name: "turn-server", value: PropertyValue::Text(turn_server.to_owned()) },
    ];
    let plan = ElementPlan { factory: "webrtcbin", properties };
    assert(plan@.1 =~= seq![
        ("name"@, ValueModel::Text("webrtcbin-"@ + crate::protocol::hyphenated(session_id.bits))),
        ("async-handling"@, ValueModel::Flag(true)),
        ("latency"@, ValueModel::Number(0)),
        ("stun-server"@, ValueModel::Text(stun_server@)),
        ("turn-server"@, ValueModel::Text(turn_server@)),
    ]);
    plan
}

/// Whether a text starts with another.
fn starts_with(text: &str, prefix: &str) -> (r: bool)
    ensures
        r <==> prefix@.is_prefix_of(text@),
{
    let length: usize = prefix.unicode_len();
    if text.unicode_len() < length {
        return false;
    }
    let mut i: usize = 0;
    while i < length
        invariant
            i <= length,
            length == prefix@.len(),
            length <= text@.len(),
            prefix@.take(i as int) =~= text@.take(i as int),
        decreases length - i,
    {
        if text.get_char(i) != prefix.get_char(i) {
            assert(prefix@[i as int] != text@.subrange(0, length as int)[i as int]);
            return false;
        }
        assert(prefix@.take(i + 1) =~= prefix@.take(i as int).push(prefix@[i as int]));
        assert(text@.take(i + 1) =~= text@.take(i as int).push(text@[i as int]));
        i = i + 1;
    }
    assert(prefix@.take(length as int) =~= prefix@);
    true
}

/// What a child of the WebRTC element is set to. An RTP bin takes its time from
/// the clock of the pipeline, so that the timestamps of the source are right; it
/// is known by its name.
pub fn child_property(child: &str) -> (r: Option<Property>)
    ensures
        "rtpbin"@.is_prefix_of(child@) <==> r is Some,
        r matches Some(property) ==> property@ == (
            "ntp-time-source"@,
            ValueModel::Text("clock-time"@),
        ),
{
    if starts_with(child, "rtpbin") {
        Some(
            Property {
                name: "ntp-time-source",
                value: PropertyValue::Text("clock-time".to_owned()),
            },
        )
    } else {
        None
    }
}

/// The template of the pad that the WebRTC element is asked for.
pub fn sink_pad_template() -> (r: &'static str)
    ensures
        r@ == "sink_%u"@,
{
    "sink_%u"
}

/// In which directions a transceiver carries media.
#[derive(Clone, Copy, Debug, PartialEq, Eq, Structural)]
pub enum TransceiverDirection {
    Inactive,
    SendOnly,
    RecvOnly,
    SendRecv,
}

/// How the transceiver of a sink is set up.
#[derive(Clone, Copy, Debug, PartialEq, Eq, Structural)]
pub struct TransceiverPlan {
    pub direction: TransceiverDirection,
    /// Whether lost packets are sent again.
    pub do_nack: bool,
}

/// A sink sends and does not receive, and sends nothing again.
pub fn transceiver_plan() -> (r: TransceiverPlan)
    ensures
        r.direction == TransceiverDirection::SendOnly,
        !r.do_nack,
{
    TransceiverPlan { direction: TransceiverDirection::SendOnly, do_nack: false }
}

/// A property is set to its value, whole and unchanged.
pub proof fn law_values_are_held_whole(text: String, flag: bool, number: u32)
    ensures
        PropertyValue::Text(text)@ == ValueModel::Text(text@),
        PropertyValue::Flag(flag)@ == ValueModel::Flag(flag),
        PropertyValue::Number(number)@ == ValueModel::Number(number),
{
}

/// A plan holds its factory and every property, in their order.
pub proof fn law_plans_are_held_whole(plan: ElementPlan, index: int)
    requires
        0 <= index < plan.properties@.len(),
    ensures
        plan@.0 == plan.factory@,
        plan@.1.len() == plan.properties@.len(),
        plan@.1[index].0 == plan.properties@[index].name@,
        plan@.1[index].1 == plan.properties@[index].value@,
{
}

} // verus!
