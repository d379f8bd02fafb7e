use remote_computer::config::dev_mode_enabled;
use remote_computer::json::{JsonNumber, JsonValue};
use remote_computer::models::WebServerConfig;
use remote_computer::mqtt::{control_for_message, volume_state, MqttControl};
use remote_computer::system_info::{is_core_sensor, memory_usage_percent};
use remote_computer::web_server::{
    asset_path, audio_reply, fallback_reply, server_address, AssetBody, AudioRequest,
};

fn object(members: Vec<(&str, JsonValue)>) -> JsonValue {
    JsonValue::Object(members.into_iter().map(|(k, v)| (k.to_string(), v)).collect())
}

#[test]
fn listen_address() {
    let config = WebServerConfig { enable: true, host: "0.0.0.0".to_string(), port: 8080, https: false };
    assert_eq!(server_address(&config), "0.0.0.0:8080");
    let config = WebServerConfig { enable: true, host: "h".to_string(), port: 0, https: true };
    assert_eq!(server_address(&config), "h:0");
    let config = WebServerConfig { enable: true, host: "h".to_string(), port: 65535, https: true };
    assert_eq!(server_address(&config), "h:65535");
}

#[test]
fn asset_paths() {
    assert_eq!(asset_path("/"), "index.html");
    assert_eq!(asset_path(""), "index.html");
    assert_eq!(asset_path("//assets/app.js"), "assets/app.js");
    assert_eq!(asset_path("page.html"), "page.html");
}

#[test]
fn fallback_answers() {
    let r = fallback_reply("assets/app.js", true, true);
    assert_eq!(r.status, 200);
    assert_eq!(r.content_type.as_deref(), Some("text/javascript"));
    assert_eq!(r.body, AssetBody::Requested);
    let r = fallback_reply("style.css", true, false);
    assert_eq!(r.content_type.as_deref(), Some("text/css"));
    let r = fallback_reply("data.unknownext", true, false);
    assert_eq!(r.content_type.as_deref(), Some("application/octet-stream"));
    let r = fallback_reply("missing", false, true);
    assert_eq!((r.status, r.content_type.as_deref(), r.body), (200, Some("text/html"), AssetBody::Index));
    let r = fallback_reply("missing", false, false);
    assert_eq!((r.status, r.content_type, r.body), (404, None, AssetBody::Empty));
}

#[test]
fn audio_worker_answers() {
    assert_eq!(audio_reply(AudioRequest::GetVolume, false, Some(30)), Some(30));
    assert_eq!(audio_reply(AudioRequest::GetVolume, true, None), Some(0));
    assert_eq!(audio_reply(AudioRequest::SetVolume(40), true, Some(40)), Some(40));
    assert_eq!(audio_reply(AudioRequest::SetVolume(40), true, None), Some(0));
    assert_eq!(audio_reply(AudioRequest::SetVolume(40), false, Some(10)), None);
}

#[test]
fn mqtt_mute_switch() {
    let payload = object(vec![("mute", JsonValue::String("switch".to_string()))]);
    assert!(matches!(control_for_message("tv-web/control/volume", &payload), MqttControl::ToggleMute));
}

#[test]
fn mqtt_volume_change() {
    let payload = object(vec![("volume", JsonValue::Number(JsonNumber::PosInt(30)))]);
    assert!(matches!(
        control_for_message("tv-web/control/volume", &payload),
        MqttControl::SetVolume { volume: 30 }
    ));
    let payload = object(vec![("volume", JsonValue::Number(JsonNumber::PosInt(300)))]);
    assert!(matches!(
        control_for_message("tv-web/control/volume", &payload),
        MqttControl::SetVolume { volume: 44 }
    ));
    let payload = object(vec![
        ("mute", JsonValue::String("on".to_string())),
        ("volume", JsonValue::String("30".to_string())),
    ]);
    assert!(matches!(control_for_message("tv-web/control/volume", &payload), MqttControl::Ignore));
}

#[test]
fn mqtt_other_topics() {
    assert!(matches!(
        control_for_message("tv-web/volume/state/receive", &JsonValue::Null),
        MqttControl::ReportState
    ));
    let payload = object(vec![("app_name", JsonValue::String("vlc".to_string()))]);
    match control_for_message("tv-web/control/launch_app", &payload) {
        MqttControl::Launch { app_name } => assert_eq!(app_name, "vlc"),
        other => panic!("unexpected {other:?}"),
    }
    let payload = object(vec![("app_name", JsonValue::Bool(true))]);
    assert!(matches!(control_for_message("tv-web/control/launch_app", &payload), MqttControl::Ignore));
    assert!(matches!(control_for_message("other/topic", &payload), MqttControl::Ignore));
}

#[test]
fn mqtt_state_publication() {
    let p = volume_state(35, true);
    assert_eq!(p.topic, "tv-web/volume/state/send");
    match p.payload {
        JsonValue::Object(m) => {
            assert_eq!(m.len(), 2);
            assert_eq!(m[0].0, "volume");
            assert!(matches!(m[0].1, JsonValue::Number(JsonNumber::PosInt(35))));
            assert_eq!(m[1].0, "mute");
            assert!(matches!(m[1].1, JsonValue::Bool(true)));
        }
        other => panic!("unexpected {other:?}"),
    }
}

#[test]
fn system_info_helpers() {
    assert_eq!(memory_usage_percent(50, 200), 25);
    assert_eq!(memory_usage_percent(2, 3), 66);
    assert!(is_core_sensor("coretemp Core 0"));
    assert!(!is_core_sensor("acpitz temp1"));
    assert!(!is_core_sensor("core"));
}

#[test]
fn dev_mode_flag() {
    assert!(dev_mode_enabled(Some("true")));
    assert!(!dev_mode_enabled(Some("True")));
    assert!(!dev_mode_enabled(Some("false")));
    assert!(!dev_mode_enabled(None));
}
