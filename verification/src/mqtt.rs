//! The decisions taken on a message received over MQTT.

use vstd::prelude::*;
use crate::json::{JsonValue, JsonNumber, member, is_text};
use crate::text::same_text;

verus! {

/// The topic on which volume and mute changes arrive.
pub open spec fn volume_control_topic() -> Seq<char> { "tv-web/control/volume"@ }
/// The topic on which the current volume state is asked for.
pub open spec fn state_request_topic() -> Seq<char> { "tv-web/volume/state/receive"@ }
/// The topic on which application launches arrive.
pub open spec fn launch_topic() -> Seq<char> { "tv-web/control/launch_app"@ }
/// The topic on which the volume state is published.
pub open spec fn state_report_topic() -> Seq<char> { "tv-web/volume/state/send"@ }

/// What is done about an MQTT message.
#[derive(Debug)]
pub enum MqttControl {
    /// Read whether the sound is muted, flip it, then publish the state.
    ToggleMute,
    /// Set the volume, then publish the state.
    SetVolume { volume: u8 },
    /// Read the volume and mute state and publish them.
    ReportState,
    /// Launch this application.
    Launch { app_name: String },
    /// Nothing; the message is not one that is handled.
    Ignore,
}

/// The payload asks for the mute state to be flipped: its `mute` is the string `switch`.
pub open spec fn asks_mute_switch(payload: JsonValue) -> bool {
    member(payload, "mute"@) matches Some(v) && is_text(v, "switch"@)
}

/// A volume message whose `volume` is a number that is not a non-negative
/// integer; handling it was never written to cope with that.
pub open spec fn has_unusable_volume(topic: Seq<char>, payload: JsonValue) -> bool {
    &&& topic == volume_control_topic()
    &&& !asks_mute_switch(payload)
    &&& member(payload, "volume"@) matches Some(JsonValue::Number(n))
    &&& !(n is PosInt)
}

/// `c` is what is done about the message `payload` on `topic`.
pub open spec fn control_ok(topic: Seq<char>, payload: JsonValue, c: MqttControl) -> bool {
    if topic == volume_control_topic() {
        if asks_mute_switch(payload) {
            c is ToggleMute
        } else {
            match member(payload, "volume"@) {
                Some(JsonValue::Number(JsonNumber::PosInt(u))) => c matches MqttControl::SetVolume {
                    volume,
                } && volume == u as u8,
                _ => c is Ignore,
            }
        }
    } else if topic == state_request_topic() {
        c is ReportState
    } else if topic == launch_topic() {
        match member(payload, "app_name"@) {
            Some(JsonValue::String(s)) => c matches MqttControl::Launch { app_name } && app_name@
                == s@,
            _ => c is Ignore,
        }
    } else {
        c is Ignore
    }
}

/// Decides what to do about the JSON `payload` received on `topic`. A volume
/// given as a larger number than a byte holds keeps its lowest byte.
pub fn control_for_message(topic: &str, payload: &JsonValue) -> (c: MqttControl)
    requires
        !has_unusable_volume(topic@, *payload),
    ensures
        control_ok(topic@, *payload, c),
{
    if same_text(topic, "tv-web/control/volume") {
        let mute_switch = match payload.get("mute") {
            Some(mute) => mute.is_text("switch"),
            None => false,
        };
        if mute_switch {
            return MqttControl::ToggleMute;
        }
        match payload.get("volume") {
            Some(JsonValue::Number(JsonNumber::PosInt(u))) => {
                #[verifier::truncate]
                let volume: u8 = *u as u8;
                MqttControl::SetVolume { volume }
            },
            _ => MqttControl::Ignore,
        }
    } else if same_text(topic, "tv-web/volume/state/receive") {
        MqttControl::ReportState
    } else if same_text(topic, "tv-web/control/launch_app") {
        match payload.get("app_name") {
            Some(JsonValue::String(s)) => MqttControl::Launch { app_name: s.clone() },
            _ => MqttControl::Ignore,
        }
    } else {
        MqttControl::Ignore
    }
}

/// A message to publish.
#[derive(Debug)]
pub struct Publication {
    pub topic: String,
    pub payload: JsonValue,
}

/// The payload `{"volume": volume, "mute": muted}`.
pub open spec fn is_state_payload(payload: JsonValue, volume: u8, muted: bool) -> bool {
    &&& payload matches JsonValue::Object(m)
    &&& m@.len() == 2
    &&& m@[0].0@ == "volume"@
    &&& m@[0].1 == JsonValue::Number(JsonNumber::PosInt(volume as u64))
    &&& m@[1].0@ == "mute"@
    &&& m@[1].1 == JsonValue::Bool(muted)
}

/// The publication of the volume state: `{"volume": volume, "mute": muted}`
/// on the state topic.
pub fn volume_state(volume: u8, muted: bool) -> (p: Publication)
    ensures
        p.topic@ == state_report_topic(),
        is_state_payload(p.payload, volume, muted),
{
    let members = vec![
        (String::from_str("volume"), JsonValue::Number(JsonNumber::PosInt(volume as u64))),
        (String::from_str("mute"), JsonValue::Bool(muted)),
    ];
    Publication {
        topic: String::from_str("tv-web/volume/state/send"),
        payload: JsonValue::Object(members),
    }
}

/// Every message on `tv-web/volume/state/receive`, whatever its payload,
/// asks for the volume state to be reported.
pub proof fn lemma_state_request_always_reported(topic: Seq<char>, payload: JsonValue, c: MqttControl)
    requires
        control_ok(topic, payload, c),
        topic == "tv-web/volume/state/receive"@,
    ensures
        c is ReportState,
{
    reveal_strlit("tv-web/volume/state/receive");
    reveal_strlit("tv-web/control/volume");
    assert(topic.len() != volume_control_topic().len());
    assert(topic != volume_control_topic());
}

/// On the volume topic, `"mute": "switch"` flips the mute state; otherwise a
/// `volume` given as a whole number up to 255 sets exactly that volume.
pub proof fn lemma_volume_topic_actions(payload: JsonValue, c: MqttControl)
    requires
        control_ok("tv-web/control/volume"@, payload, c),
    ensures
        member(payload, "mute"@) matches Some(JsonValue::String(m)) && m@ == "switch"@ ==> c is ToggleMute,
        !asks_mute_switch(payload) ==> forall|n: u64| n <= 255 && member(payload, "volume"@) == Some(
            JsonValue::Number(JsonNumber::PosInt(n)),
        ) ==> (c matches MqttControl::SetVolume { volume } && volume as u64 == n),
{
    assert forall|n: u64| n <= 255 && member(payload, "volume"@) == Some(
        JsonValue::Number(JsonNumber::PosInt(n)),
    ) && !asks_mute_switch(payload) implies (c matches MqttControl::SetVolume { volume } && volume as u64 == n) by {
        assert(n as u8 == n);
    }
}

/// A launch message whose `app_name` is a string launches exactly that name.
pub proof fn lemma_launch_topic_launches_name(payload: JsonValue, c: MqttControl, name: String)
    requires
        control_ok("tv-web/control/launch_app"@, payload, c),
        member(payload, "app_name"@) == Some(JsonValue::String(name)),
    ensures
        c matches MqttControl::Launch { app_name } && app_name@ == name@,
{
    reveal_strlit("tv-web/control/launch_app");
    reveal_strlit("tv-web/control/volume");
    reveal_strlit("tv-web/volume/state/receive");
    assert("tv-web/control/launch_app"@ != volume_control_topic()) by {
        assert("tv-web/control/launch_app"@.len() != volume_control_topic().len());
    }
    assert("tv-web/control/launch_app"@ != state_request_topic()) by {
        assert("tv-web/control/launch_app"@.len() != state_request_topic().len());
    }
}

} // verus!
