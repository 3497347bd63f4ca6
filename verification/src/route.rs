use vstd::prelude::*;
use vstd::string::StringSliceAdditionalSpecFns;

use crate::alarm::{AlarmCommand, SensorType};
use crate::constants::{
    PAYLOAD_ON, TOPIC_ALARM_STATUS, TOPIC_BACK_DOOR, TOPIC_BELL, TOPIC_FRONT_DOOR,
    TOPIC_MOVEMENT_SENSOR_1, TOPIC_MOVEMENT_SENSOR_2, TOPIC_MOVEMENT_SENSOR_3,
};

verus! {

broadcast use vstd::utf8::encode_utf8_decode_utf8;

/// What an incoming MQTT message asks of the system.
#[derive(Clone, Copy, Debug, PartialEq, Eq)]
pub enum Incoming {
    /// Someone rang the bell: notify on Telegram.
    Bell,
    /// A command for the alarm.
    Command(AlarmCommand),
}

/// Compares two byte strings.
pub fn bytes_equal(a: &[u8], b: &[u8]) -> (same: bool)
    ensures
        same <==> a@ == b@,
{
    if a.len() != b.len() {
        return false;
    }
    let mut i: usize = 0;
    while i < a.len()
        invariant
            a@.len() == b@.len(),
            i <= a@.len(),
            forall|j: int| 0 <= j < i ==> a@[j] == b@[j],
        decreases a@.len() - i,
    {
        if a[i] != b[i] {
            return false;
        }
        i = i + 1;
    }
    assert(a@ =~= b@);
    true
}

/// Compares two strings by their characters.
pub fn text_equal(a: &str, b: &str) -> (same: bool)
    ensures
        same <==> a@ == b@,
{
    let same = bytes_equal(a.as_bytes(), b.as_bytes());
    proof {
        if same {
            assert(vstd::utf8::decode_utf8(vstd::utf8::encode_utf8(a@)) == a@);
            assert(vstd::utf8::decode_utf8(vstd::utf8::encode_utf8(b@)) == b@);
        }
    }
    same
}

/// Whether a payload switches something on: only the exact bytes of `ON` do.
pub open spec fn payload_is_on(payload: Seq<u8>) -> bool {
    payload == PAYLOAD_ON.spec_bytes()
}

/// The topic on which a sensor reports.
pub open spec fn sensor_topic(sensor: SensorType) -> &'static str {
    match sensor {
        SensorType::FrontDoor => TOPIC_FRONT_DOOR,
        SensorType::BackDoor => TOPIC_BACK_DOOR,
        SensorType::Movement1 => TOPIC_MOVEMENT_SENSOR_1,
        SensorType::Movement2 => TOPIC_MOVEMENT_SENSOR_2,
        SensorType::Movement3 => TOPIC_MOVEMENT_SENSOR_3,
    }
}

/// The sensor whose topic this is, if any.
pub open spec fn sensor_of_topic(topic: Seq<char>) -> Option<SensorType> {
    if topic == TOPIC_FRONT_DOOR@ {
        Some(SensorType::FrontDoor)
    } else if topic == TOPIC_BACK_DOOR@ {
        Some(SensorType::BackDoor)
    } else if topic == TOPIC_MOVEMENT_SENSOR_1@ {
        Some(SensorType::Movement1)
    } else if topic == TOPIC_MOVEMENT_SENSOR_2@ {
        Some(SensorType::Movement2)
    } else if topic == TOPIC_MOVEMENT_SENSOR_3@ {
        Some(SensorType::Movement3)
    } else {
        None
    }
}

/// How a message published on `topic` with `payload` is handled: the bell
/// topic always notifies, the alarm status topic arms on `ON` and disarms
/// otherwise, and a sensor topic reports its sensor only on `ON`.
pub open spec fn spec_route(topic: Seq<char>, payload: Seq<u8>) -> Option<Incoming> {
    if topic == TOPIC_BELL@ {
        Some(Incoming::Bell)
    } else if topic == TOPIC_ALARM_STATUS@ {
        if payload_is_on(payload) {
            Some(Incoming::Command(AlarmCommand::Arm))
        } else {
            Some(Incoming::Command(AlarmCommand::Deactivate))
        }
    } else {
        match sensor_of_topic(topic) {
            Some(sensor) => if payload_is_on(payload) {
                Some(Incoming::Command(AlarmCommand::SensorTriggered(sensor)))
            } else {
                None
            },
            None => None,
        }
    }
}

fn sensor_for_topic(topic: &str) -> (sensor: Option<SensorType>)
    ensures
        sensor == sensor_of_topic(topic@),
{
    if text_equal(topic, TOPIC_FRONT_DOOR) {
        Some(SensorType::FrontDoor)
    } else if text_equal(topic, TOPIC_BACK_DOOR) {
        Some(SensorType::BackDoor)
    } else if text_equal(topic, TOPIC_MOVEMENT_SENSOR_1) {
        Some(SensorType::Movement1)
    } else if text_equal(topic, TOPIC_MOVEMENT_SENSOR_2) {
        Some(SensorType::Movement2)
    } else if text_equal(topic, TOPIC_MOVEMENT_SENSOR_3) {
        Some(SensorType::Movement3)
    } else {
        None
    }
}

/// Decides what a published MQTT message means for the system.
pub fn route_message(topic: &str, payload: &[u8]) -> (incoming: Option<Incoming>)
    ensures
        incoming == spec_route(topic@, payload@),
{
    if text_equal(topic, TOPIC_BELL) {
        Some(Incoming::Bell)
    } else if text_equal(topic, TOPIC_ALARM_STATUS) {
        if crate::parse_on_off(payload) {
            Some(Incoming::Command(AlarmCommand::Arm))
        } else {
            Some(Incoming::Command(AlarmCommand::Deactivate))
        }
    } else {
        match sensor_for_topic(topic) {
            Some(sensor) => if crate::parse_on_off(payload) {
                Some(Incoming::Command(AlarmCommand::SensorTriggered(sensor)))
            } else {
                None
            },
            None => None,
        }
    }
}

/// The topics the system listens on.
pub fn subscribed_topics() -> (topics: Vec<&'static str>)
    ensures
        topics@.len() == 7,
        topics@[0]@ == TOPIC_ALARM_STATUS@,
        topics@[1]@ == TOPIC_BELL@,
        topics@[2]@ == TOPIC_FRONT_DOOR@,
        topics@[3]@ == TOPIC_BACK_DOOR@,
        topics@[4]@ == TOPIC_MOVEMENT_SENSOR_1@,
        topics@[5]@ == TOPIC_MOVEMENT_SENSOR_2@,
        topics@[6]@ == TOPIC_MOVEMENT_SENSOR_3@,
{
    let mut topics: Vec<&'static str> = Vec::new();
    topics.push(TOPIC_ALARM_STATUS);
    topics.push(TOPIC_BELL);
    topics.push(TOPIC_FRONT_DOOR);
    topics.push(TOPIC_BACK_DOOR);
    topics.push(TOPIC_MOVEMENT_SENSOR_1);
    topics.push(TOPIC_MOVEMENT_SENSOR_2);
    topics.push(TOPIC_MOVEMENT_SENSOR_3);
    topics
}

// Laws of message routing.

/// A sensor's `ON` message reports exactly that sensor; any other payload on
/// a sensor topic is ignored.
pub proof fn lemma_sensor_topics_route(sensor: SensorType, payload: Seq<u8>)
    ensures
        spec_route(sensor_topic(sensor)@, payload) == (if payload_is_on(payload) {
            Some(Incoming::Command(AlarmCommand::SensorTriggered(sensor)))
        } else {
            None
        }),
{
    reveal_strlit("bell");
    reveal_strlit("alarm/status");
    reveal_strlit("alarm/front_door");
    reveal_strlit("alarm/back_door");
    reveal_strlit("alarm/movement_1");
    reveal_strlit("alarm/movement_2");
    reveal_strlit("alarm/movement_3");
    let t = sensor_topic(sensor)@;
    assert(t != TOPIC_BELL@) by {
        assert(t.len() != TOPIC_BELL@.len());
    }
    assert(t != TOPIC_ALARM_STATUS@) by {
        assert(t[6] != TOPIC_ALARM_STATUS@[6]);
    }
    match sensor {
        SensorType::FrontDoor => {},
        SensorType::BackDoor => {
            assert(t[6] != TOPIC_FRONT_DOOR@[6]);
        },
        SensorType::Movement1 => {
            assert(t[6] != TOPIC_FRONT_DOOR@[6]);
            assert(t[6] != TOPIC_BACK_DOOR@[6]);
        },
        SensorType::Movement2 => {
            assert(t[6] != TOPIC_FRONT_DOOR@[6]);
            assert(t[6] != TOPIC_BACK_DOOR@[6]);
            assert(t[15] != TOPIC_MOVEMENT_SENSOR_1@[15]);
        },
        SensorType::Movement3 => {
            assert(t[6] != TOPIC_FRONT_DOOR@[6]);
            assert(t[6] != TOPIC_BACK_DOOR@[6]);
            assert(t[15] != TOPIC_MOVEMENT_SENSOR_1@[15]);
            assert(t[15] != TOPIC_MOVEMENT_SENSOR_2@[15]);
        },
    }
}

/// Over MQTT only arming, disarming and sensor reports come in: the end of
/// the exit delay and the silencing of the siren are the alarm's own timers.
pub proof fn lemma_routed_commands_are_external(topic: Seq<char>, payload: Seq<u8>)
    ensures
        (match spec_route(topic, payload) {
            Some(Incoming::Command(command)) => command is Arm || command is Deactivate
                || command is SensorTriggered,
            _ => true,
        }),
{
}

/// Any payload on the alarm status topic arms or disarms: `ON` arms,
/// anything else disarms.
pub proof fn lemma_status_topic_routes(payload: Seq<u8>)
    ensures
        spec_route(TOPIC_ALARM_STATUS@, payload) == Some(Incoming::Command(
            if payload_is_on(payload) {
                AlarmCommand::Arm
            } else {
                AlarmCommand::Deactivate
            },
        )),
{
    reveal_strlit("bell");
    reveal_strlit("alarm/status");
    assert(TOPIC_ALARM_STATUS@ != TOPIC_BELL@) by {
        assert(TOPIC_ALARM_STATUS@.len() != TOPIC_BELL@.len());
    }
}

/// The seven topics the system listens on are pairwise different.
proof fn lemma_topics_distinct()
    ensures
        "bell"@ != "alarm/status"@,
        "bell"@ != "alarm/front_door"@,
        "bell"@ != "alarm/back_door"@,
        "bell"@ != "alarm/movement_1"@,
        "bell"@ != "alarm/movement_2"@,
        "bell"@ != "alarm/movement_3"@,
        "alarm/status"@ != "alarm/front_door"@,
        "alarm/status"@ != "alarm/back_door"@,
        "alarm/status"@ != "alarm/movement_1"@,
        "alarm/status"@ != "alarm/movement_2"@,
        "alarm/status"@ != "alarm/movement_3"@,
        "alarm/front_door"@ != "alarm/back_door"@,
        "alarm/front_door"@ != "alarm/movement_1"@,
        "alarm/front_door"@ != "alarm/movement_2"@,
        "alarm/front_door"@ != "alarm/movement_3"@,
        "alarm/back_door"@ != "alarm/movement_1"@,
        "alarm/back_door"@ != "alarm/movement_2"@,
        "alarm/back_door"@ != "alarm/movement_3"@,
        "alarm/movement_1"@ != "alarm/movement_2"@,
        "alarm/movement_1"@ != "alarm/movement_3"@,
        "alarm/movement_2"@ != "alarm/movement_3"@,
{
    reveal_strlit("bell");
    reveal_strlit("alarm/status");
    reveal_strlit("alarm/front_door");
    reveal_strlit("alarm/back_door");
    reveal_strlit("alarm/movement_1");
    reveal_strlit("alarm/movement_2");
    reveal_strlit("alarm/movement_3");
    assert("bell"@.len() == 4);
    assert("alarm/status"@.len() == 12);
    assert("alarm/back_door"@.len() == 15);
    assert("alarm/front_door"@.len() == 16);
    assert("alarm/movement_1"@.len() == 16);
    assert("alarm/movement_2"@.len() == 16);
    assert("alarm/movement_3"@.len() == 16);
    assert("alarm/front_door"@[6] != "alarm/movement_1"@[6]);
    assert("alarm/front_door"@[6] != "alarm/movement_2"@[6]);
    assert("alarm/front_door"@[6] != "alarm/movement_3"@[6]);
    assert("alarm/movement_1"@[15] != "alarm/movement_2"@[15]);
    assert("alarm/movement_1"@[15] != "alarm/movement_3"@[15]);
    assert("alarm/movement_2"@[15] != "alarm/movement_3"@[15]);
}

/// How every incoming message is routed, written out by topic: the bell
/// always notifies, whatever its payload; `alarm/status` arms on exactly the
/// bytes `ON` and disarms on anything else; each sensor topic reports its own
/// sensor on exactly `ON` and is ignored otherwise; every other topic is
/// ignored.
pub proof fn lemma_route_table(topic: Seq<char>, payload: Seq<u8>)
    ensures
        topic == "bell"@ ==> spec_route(topic, payload) == Some(Incoming::Bell),
        topic == "alarm/status"@ && payload == seq![0x4Fu8, 0x4Eu8] ==> spec_route(topic, payload)
            == Some(Incoming::Command(AlarmCommand::Arm)),
        topic == "alarm/status"@ && payload != seq![0x4Fu8, 0x4Eu8] ==> spec_route(topic, payload)
            == Some(Incoming::Command(AlarmCommand::Deactivate)),
        topic == "alarm/front_door"@ && payload == seq![0x4Fu8, 0x4Eu8] ==> spec_route(
            topic,
            payload,
        ) == Some(Incoming::Command(AlarmCommand::SensorTriggered(SensorType::FrontDoor))),
        topic == "alarm/back_door"@ && payload == seq![0x4Fu8, 0x4Eu8] ==> spec_route(
            topic,
            payload,
        ) == Some(Incoming::Command(AlarmCommand::SensorTriggered(SensorType::BackDoor))),
        topic == "alarm/movement_1"@ && payload == seq![0x4Fu8, 0x4Eu8] ==> spec_route(
            topic,
            payload,
        ) == Some(Incoming::Command(AlarmCommand::SensorTriggered(SensorType::Movement1))),
        topic == "alarm/movement_2"@ && payload == seq![0x4Fu8, 0x4Eu8] ==> spec_route(
            topic,
            payload,
        ) == Some(Incoming::Command(AlarmCommand::SensorTriggered(SensorType::Movement2))),
        topic == "alarm/movement_3"@ && payload == seq![0x4Fu8, 0x4Eu8] ==> spec_route(
            topic,
            payload,
        ) == Some(Incoming::Command(AlarmCommand::SensorTriggered(SensorType::Movement3))),
        (topic == "alarm/front_door"@ || topic == "alarm/back_door"@ || topic
            == "alarm/movement_1"@ || topic == "alarm/movement_2"@ || topic == "alarm/movement_3"@)
            && payload != seq![0x4Fu8, 0x4Eu8] ==> spec_route(topic, payload) == None::<Incoming>,
        topic != "bell"@ && topic != "alarm/status"@ && topic != "alarm/front_door"@ && topic
            != "alarm/back_door"@ && topic != "alarm/movement_1"@ && topic != "alarm/movement_2"@
            && topic != "alarm/movement_3"@ ==> spec_route(topic, payload) == None::<Incoming>,
{
    lemma_topics_distinct();
    crate::lemma_on_payload_bytes();
}

/// A ring of the bell is always passed on, whatever the bell publishes.
pub proof fn lemma_bell_always_notifies(payload: Seq<u8>)
    ensures
        spec_route("bell"@, payload) == Some(Incoming::Bell),
{
    lemma_route_table("bell"@, payload);
}

} // verus!
