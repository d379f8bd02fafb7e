use remote_computer::browser_service;
use remote_computer::json::{JsonNumber, JsonValue};
use remote_computer::models::{
    AppConfig, CommandModel, MsgReqModel, MsgRspModel, MsgType, QueryAuth, SecurityConfig,
    WebServerConfig,
};
use remote_computer::request::{
    parse_message, validate_request, EARLIEST_TIMESTAMP, LATEST_TIMESTAMP,
};
use remote_computer::user_service::{
    decide_request, handle_msg, reply_after_launch, reply_after_system_info, reply_after_volume,
    PowerKind, UserAction, VolumeOutcome,
};

fn security() -> SecurityConfig {
    SecurityConfig { shutdown_key: "secret".to_string() }
}

fn request(topic: MsgType, command: Option<(&str, Option<JsonValue>)>) -> MsgReqModel {
    MsgReqModel {
        topic,
        token: "t0k3n".to_string(),
        command: command.map(|(name, param)| CommandModel {
            command_type: name.to_string(),
            param,
        }),
        date_time: 1431648000,
    }
}

fn object(members: Vec<(&str, JsonValue)>) -> JsonValue {
    JsonValue::Object(members.into_iter().map(|(k, v)| (k.to_string(), v)).collect())
}

fn text(s: &str) -> JsonValue {
    JsonValue::String(s.to_string())
}

const NOW: i64 = 1_700_000_000;

fn assert_refused(reply: &MsgRspModel<JsonValue>, topic: MsgType, message: &str) {
    assert_eq!(reply.msg_type, topic);
    assert_eq!(reply.code, -1);
    assert!(!reply.success);
    assert!(reply.data.is_none());
    assert_eq!(reply.msg.as_deref(), Some(message));
    assert_eq!(reply.token, "");
    assert_eq!(reply.date_time, NOW);
}

fn assert_default(reply: &MsgRspModel<JsonValue>, topic: MsgType) {
    assert_eq!(reply.msg_type, topic);
    assert_eq!(reply.code, 0);
    assert!(reply.success);
    assert_eq!(reply.msg, None);
    assert_eq!(reply.date_time, NOW);
    assert!(matches!(&reply.data, Some(JsonValue::String(s)) if s == "128128182"));
}

fn refused_with(action: UserAction, topic: MsgType, message: &str) {
    match action {
        UserAction::Reply(r) => assert_refused(&r, topic, message),
        other => panic!("expected a refusal, got {other:?}"),
    }
}

fn default_for(action: UserAction, topic: MsgType) {
    match action {
        UserAction::Reply(r) => assert_default(&r, topic),
        other => panic!("expected the default reply, got {other:?}"),
    }
}

#[test]
fn parse_message_reports_decoding_failure() {
    let r = parse_message(Err("EOF while parsing".to_string()));
    assert_eq!(r.err(), Some("JSON 不符合 MsgReqModel 格式: EOF while parsing".to_string()));
}

#[test]
fn parse_message_refuses_empty_token() {
    let mut req = request(MsgType::Ping, None);
    req.token = String::new();
    assert_eq!(parse_message(Ok(req)).err(), Some("token 不能为空".to_string()));
}

#[test]
fn parse_message_refuses_out_of_range_time() {
    let mut req = request(MsgType::Ping, None);
    req.date_time = i64::MAX;
    assert_eq!(parse_message(Ok(req)).err(), Some("date_time 格式无效".to_string()));
}

#[test]
fn parse_message_accepts_valid_request() {
    let r = parse_message(Ok(request(MsgType::Ping, None))).unwrap();
    assert_eq!(r.token, "t0k3n");
    assert_eq!(r.date_time, 1431648000);
    let mut epoch = request(MsgType::Ping, None);
    epoch.date_time = 0;
    assert!(parse_message(Ok(epoch)).is_ok());
}

#[test]
fn validate_request_order_of_checks() {
    let mut req = request(MsgType::Ping, None);
    req.token = String::new();
    assert_eq!(validate_request(req, false).err(), Some("token 不能为空".to_string()));
    assert_eq!(
        validate_request(request(MsgType::Ping, None), false).err(),
        Some("date_time 格式无效".to_string())
    );
    assert!(validate_request(request(MsgType::Ping, None), true).is_ok());
}

#[test]
fn timestamp_range_edges() {
    let at = |t: i64| {
        let mut req = request(MsgType::Ping, None);
        req.date_time = t;
        parse_message(Ok(req)).is_ok()
    };
    assert!(at(EARLIEST_TIMESTAMP));
    assert!(at(LATEST_TIMESTAMP));
    assert!(!at(EARLIEST_TIMESTAMP - 1));
    assert!(!at(LATEST_TIMESTAMP + 1));
    assert!(!at(i64::MIN));
    assert!(at(-1));
}

#[test]
fn shutdown_without_param_needs_no_password() {
    match decide_request(request(MsgType::SystemControl, Some(("shutdown", None))), &security(), NOW) {
        UserAction::Power { kind, immediate, then } => {
            assert_eq!(kind, PowerKind::Shutdown);
            assert!(!immediate);
            assert_default(&then, MsgType::SystemControl);
        }
        other => panic!("unexpected {other:?}"),
    }
}

fn power(name: &str, param: JsonValue) -> UserAction {
    decide_request(request(MsgType::SystemControl, Some((name, Some(param)))), &security(), NOW)
}

#[test]
fn shutdown_with_wrong_password_is_refused() {
    let param = object(vec![("password", text("guess")), ("immediate", JsonValue::Bool(true))]);
    refused_with(power("shutdown", param), MsgType::SystemControl, "密码错误");
}

#[test]
fn shutdown_with_non_string_password_is_refused() {
    let param = object(vec![("password", JsonValue::Number(JsonNumber::PosInt(1)))]);
    refused_with(power("shutdown", param), MsgType::SystemControl, "密码错误");
}

#[test]
fn shutdown_without_password_is_refused() {
    let param = object(vec![("immediate", JsonValue::Bool(true))]);
    refused_with(power("shutdown", param), MsgType::SystemControl, "没输入密码");
}

#[test]
fn power_param_must_be_object() {
    refused_with(power("reboot", JsonValue::Bool(true)), MsgType::SystemControl, "param请输入bool值");
}

#[test]
fn reboot_with_password_and_immediate() {
    let param = object(vec![("password", text("secret")), ("immediate", JsonValue::Bool(true))]);
    match power("reboot", param) {
        UserAction::Power { kind, immediate, then } => {
            assert_eq!(kind, PowerKind::Reboot);
            assert!(immediate);
            assert_default(&then, MsgType::SystemControl);
        }
        other => panic!("unexpected {other:?}"),
    }
}

#[test]
fn immediate_must_be_a_boolean() {
    let param = object(vec![("password", text("secret")), ("immediate", text("yes"))]);
    match power("shutdown", param) {
        UserAction::Power { immediate, .. } => assert!(!immediate),
        other => panic!("unexpected {other:?}"),
    }
}

#[test]
fn unknown_system_command_gets_default_reply() {
    default_for(
        decide_request(request(MsgType::SystemControl, Some(("sleep", None))), &security(), NOW),
        MsgType::SystemControl,
    );
    default_for(
        decide_request(request(MsgType::SystemControl, None), &security(), NOW),
        MsgType::SystemControl,
    );
}

#[test]
fn system_info_request() {
    assert!(matches!(
        decide_request(request(MsgType::GetSystemInfo, Some(("get_system_info", None))), &security(), NOW),
        UserAction::FetchSystemInfo
    ));
    default_for(
        decide_request(request(MsgType::GetSystemInfo, Some(("other", None))), &security(), NOW),
        MsgType::GetSystemInfo,
    );
}

#[test]
fn volume_query_request() {
    assert!(matches!(
        decide_request(request(MsgType::GetVolume, None), &security(), NOW),
        UserAction::QueryVolume
    ));
}

#[test]
fn volume_change_values() {
    let ask = |n: JsonNumber| {
        decide_request(
            request(MsgType::SetVolume, Some(("set", Some(JsonValue::Number(n))))),
            &security(),
            NOW,
        )
    };
    let bad = "数据格式化出错，请检查你的传入数据";
    assert!(matches!(ask(JsonNumber::PosInt(50)), UserAction::ChangeVolume { volume: 50 }));
    assert!(matches!(ask(JsonNumber::PosInt(300)), UserAction::ChangeVolume { volume: 44 }));
    refused_with(ask(JsonNumber::PosInt(200)), MsgType::SetVolume, bad);
    refused_with(ask(JsonNumber::NegInt(-1)), MsgType::SetVolume, bad);
    refused_with(ask(JsonNumber::Float(0x4049_0000_0000_0000)), MsgType::SetVolume, bad);
    refused_with(ask(JsonNumber::PosInt(u64::MAX)), MsgType::SetVolume, bad);
}

#[test]
fn volume_change_missing_parts() {
    refused_with(
        decide_request(request(MsgType::SetVolume, Some(("set", None))), &security(), NOW),
        MsgType::SetVolume,
        "未传入需要设置的音量值",
    );
    refused_with(
        decide_request(request(MsgType::SetVolume, None), &security(), NOW),
        MsgType::SetVolume,
        "未传入需要设置的音量",
    );
    refused_with(
        decide_request(request(MsgType::SetVolume, Some(("set", Some(text("10"))))), &security(), NOW),
        MsgType::SetVolume,
        "数据格式化出错，请检查你的传入数据",
    );
}

fn app_request(name: &str, param: Option<JsonValue>) -> UserAction {
    decide_request(request(MsgType::LaunchApp, Some((name, param))), &security(), NOW)
}

#[test]
fn launch_requests() {
    match app_request("launch", Some(text("vlc"))) {
        UserAction::Launch { app_name } => assert_eq!(app_name, "vlc"),
        other => panic!("unexpected {other:?}"),
    }
    refused_with(app_request("launch", None), MsgType::LaunchApp, "请输入需要启动的app名称");
    refused_with(
        app_request("launch", Some(JsonValue::Bool(false))),
        MsgType::LaunchApp,
        "您输入的应用名称格式不对，请输入字符串",
    );
}

#[test]
fn exit_requests() {
    default_for(app_request("exit", Some(text("vlc"))), MsgType::LaunchApp);
    refused_with(app_request("exit", None), MsgType::LaunchApp, "请输入需要退出的app名称");
    refused_with(
        app_request("exit", Some(JsonValue::Null)),
        MsgType::LaunchApp,
        "您输入的应用名称格式不对，请输入字符串",
    );
    default_for(app_request("stop", None), MsgType::LaunchApp);
}

#[test]
fn ping_and_others_get_default_reply() {
    default_for(decide_request(request(MsgType::Ping, None), &security(), NOW), MsgType::Ping);
    default_for(
        decide_request(request(MsgType::BrowserControl, Some(("other", None))), &security(), NOW),
        MsgType::BrowserControl,
    );
}

#[test]
fn undecodable_message_is_refused_as_error() {
    refused_with(
        handle_msg(parse_message(Err("EOF".to_string())), None, &security(), NOW),
        MsgType::Error,
        "JSON 不符合 MsgReqModel 格式: EOF",
    );
}

#[test]
fn tokenless_request_is_refused_on_its_topic() {
    let mut req = request(MsgType::SystemControl, Some(("shutdown", None)));
    req.token = String::new();
    refused_with(
        handle_msg(parse_message(Ok(req)), Some(MsgType::SystemControl), &security(), NOW),
        MsgType::SystemControl,
        "token 不能为空",
    );
}

#[test]
fn replies_after_outside_work() {
    let r = reply_after_volume(MsgType::GetVolume, VolumeOutcome::Answered(40), NOW);
    assert!(r.success);
    assert_eq!(r.msg_type, MsgType::GetVolume);
    assert!(r.msg.is_none());
    assert_eq!(r.date_time, NOW);
    match &r.data {
        Some(JsonValue::Object(m)) => {
            assert_eq!(m.len(), 1);
            assert_eq!(m[0].0, "volume");
            assert!(matches!(m[0].1, JsonValue::Number(JsonNumber::PosInt(40))));
        }
        other => panic!("unexpected {other:?}"),
    }
    assert_refused(
        &reply_after_volume(MsgType::GetVolume, VolumeOutcome::Answered(128), NOW),
        MsgType::GetVolume,
        "没有获取到系统音量",
    );
    assert_refused(
        &reply_after_volume(MsgType::SetVolume, VolumeOutcome::NoAnswer, NOW),
        MsgType::SetVolume,
        "没有获取到系统音量",
    );
    assert_refused(
        &reply_after_volume(MsgType::SetVolume, VolumeOutcome::SendFailed("channel closed".to_string()), NOW),
        MsgType::SetVolume,
        "channel closed",
    );
    let ok = reply_after_launch(MsgType::LaunchApp, Ok(()), NOW);
    assert!(ok.success);
    assert_eq!(ok.msg, None);
    assert!(matches!(&ok.data, Some(JsonValue::String(s)) if s.is_empty()));
    assert_refused(
        &reply_after_launch(MsgType::LaunchApp, Err("not found".to_string()), NOW),
        MsgType::LaunchApp,
        "启动失败not found",
    );
    assert_refused(
        &reply_after_system_info(MsgType::GetSystemInfo, None, NOW),
        MsgType::GetSystemInfo,
        "未获取到系统信息",
    );
    let info = reply_after_system_info(MsgType::GetSystemInfo, Some(JsonValue::Bool(true)), NOW);
    assert!(info.success);
    assert_eq!(info.msg, None);
    assert!(matches!(info.data, Some(JsonValue::Bool(true))));
}

#[test]
fn browser_handler() {
    let none = None;
    let r = browser_service::handle_msg(Err("bad".to_string()), None, &security(), &none, NOW);
    assert_refused(&r, MsgType::Error, "bad");
    let mut req = request(MsgType::Ping, None);
    req.token = String::new();
    let r = browser_service::handle_msg(parse_message(Ok(req)), Some(MsgType::Ping), &security(), &none, NOW);
    assert_refused(&r, MsgType::Ping, "token 不能为空");
    let r = browser_service::handle_msg(
        Ok(request(MsgType::BrowserControl, Some(("bilibili", None)))),
        Some(MsgType::BrowserControl),
        &security(),
        &none,
        NOW,
    );
    assert_default(&r, MsgType::BrowserControl);
    let r = browser_service::handle_msg(Ok(request(MsgType::Ping, None)), Some(MsgType::Ping), &security(), &none, NOW);
    assert_default(&r, MsgType::Ping);
}

#[test]
fn reply_constructors() {
    let ok = MsgRspModel::success(MsgType::Ping, 7u8, None, NOW);
    assert_eq!((ok.code, ok.success, ok.data, ok.date_time, ok.msg), (0, true, Some(7u8), NOW, None));
    let err: MsgRspModel<u8> = MsgRspModel::error(MsgType::Ping, Some("e".to_string()), NOW);
    assert_eq!((err.code, err.success, err.data, err.date_time), (-1, false, None, NOW));
    assert_eq!(err.msg.as_deref(), Some("e"));
}

#[test]
fn config_getters() {
    let config = AppConfig {
        web_server: WebServerConfig {
            enable: true,
            host: "127.0.0.1".to_string(),
            port: 3000,
            https: false,
        },
        security: security(),
        launch_apps: None,
    };
    assert_eq!(config.get_server().port, 3000);
    assert_eq!(config.get_server().host, "127.0.0.1");
    assert_eq!(config.get_security().shutdown_key, "secret");
    assert_eq!(QueryAuth::new("abc".to_string()).token(), "abc");
}

#[test]
fn checking_twice_changes_nothing() {
    let once = parse_message(Ok(request(MsgType::Ping, None))).unwrap();
    let twice = parse_message(Ok(once)).unwrap();
    assert_eq!(twice.token, "t0k3n");
    assert_eq!(twice.topic, MsgType::Ping);
    assert_eq!(twice.date_time, 1431648000);
}
