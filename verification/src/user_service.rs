//! The decisions taken on a request of the user websocket.
//!
//! Answering some requests needs work outside the library (powering the
//! machine off, reading system information, talking to the audio device,
//! launching an application). [`handle_msg`] says what to do; the functions
//! `reply_after_*` give the reply once that work is done.

use vstd::prelude::*;
use crate::json::{JsonValue, JsonNumber, lookup, is_text, value_as_i64};
use crate::models::{MsgType, MsgReqModel, MsgRspModel, CommandModel, SecurityConfig};
use crate::replies::{
    is_error_reply, is_success_reply, is_default_reply, is_volume_object, answers, refuse,
    default_reply, volume_object,
};
use crate::text::same_text;
use crate::request::{checked_outcome, empty_token_message};

verus! {

/// Turning the machine off, or restarting it.
#[derive(Debug, Clone, Copy, PartialEq, Eq, Structural)]
pub enum PowerKind {
    Shutdown,
    Reboot,
}

/// What is done about a request.
#[derive(Debug)]
pub enum UserAction {
    /// Send this reply.
    Reply(MsgRspModel<JsonValue>),
    /// Power the machine off or restart it (at once if `immediate`), then send `then`.
    Power { kind: PowerKind, immediate: bool, then: MsgRspModel<JsonValue> },
    /// Read the system information, then reply with [`reply_after_system_info`].
    FetchSystemInfo,
    /// Ask the audio device for its volume, then reply with [`reply_after_volume`].
    QueryVolume,
    /// Set the audio volume, then reply with [`reply_after_volume`].
    ChangeVolume { volume: u8 },
    /// Launch this application, then reply with [`reply_after_launch`].
    Launch { app_name: String },
}

/// What came of asking the audio device for its volume.
#[derive(Debug)]
pub enum VolumeOutcome {
    /// The request could not be handed to the device, for this reason.
    SendFailed(String),
    /// The device answered with this volume.
    Answered(u8),
    /// The device did not answer in time.
    NoAnswer,
}

/// The refusal of a power command with the wrong password.
pub open spec fn wrong_password_message() -> Seq<char> { "密码错误"@ }
/// The refusal of a power command whose parameters hold no password.
pub open spec fn missing_password_message() -> Seq<char> { "没输入密码"@ }
/// The refusal of a power command whose parameter is not an object.
pub open spec fn bad_power_param_message() -> Seq<char> { "param请输入bool值"@ }
/// The refusal of a volume change that is not a volume.
pub open spec fn bad_volume_message() -> Seq<char> { "数据格式化出错，请检查你的传入数据"@ }
/// The refusal of a volume change without a value.
pub open spec fn missing_volume_value_message() -> Seq<char> { "未传入需要设置的音量值"@ }
/// The refusal of a volume change without a command.
pub open spec fn missing_volume_message() -> Seq<char> { "未传入需要设置的音量"@ }
/// The refusal of a launch without an application name.
pub open spec fn missing_launch_name_message() -> Seq<char> { "请输入需要启动的app名称"@ }
/// The refusal of an exit without an application name.
pub open spec fn missing_exit_name_message() -> Seq<char> { "请输入需要退出的app名称"@ }
/// The refusal of an application name that is not a string.
pub open spec fn bad_app_name_message() -> Seq<char> { "您输入的应用名称格式不对，请输入字符串"@ }
/// The refusal when no system information could be read.
pub open spec fn no_system_info_message() -> Seq<char> { "未获取到系统信息"@ }
/// The refusal when the audio device gave no usable volume.
pub open spec fn no_volume_message() -> Seq<char> { "没有获取到系统音量"@ }
/// The refusal of a launch that failed, for `reason`.
pub open spec fn launch_failed_message(reason: Seq<char>) -> Seq<char> { "启动失败"@ + reason }

/// There is a command and it is called `name`.
pub open spec fn command_is(command: Option<CommandModel>, name: Seq<char>) -> bool {
    command matches Some(c) && c.command_type@ == name
}

/// The command of `req` is called `name`.
pub open spec fn command_named(req: MsgReqModel, name: Seq<char>) -> bool {
    command_is(req.command, name)
}

/// The parameter of the command, if any.
pub open spec fn command_param(command: Option<CommandModel>) -> Option<JsonValue> {
    match command {
        Some(c) => c.param,
        None => None,
    }
}

/// The parameter of the command of `req`, if any.
pub open spec fn param_of(req: MsgReqModel) -> Option<JsonValue> {
    command_param(req.command)
}

/// Requests whose handling was never written: asking the browser for
/// bilibili or douyin.
pub open spec fn is_unimplemented(req: MsgReqModel) -> bool {
    req.topic == MsgType::BrowserControl && (command_named(req, "bilibili"@) || command_named(
        req,
        "douyin"@,
    ))
}

/// The `immediate` flag of a power command's parameters: only `true` counts.
pub open spec fn immediate_flag(members: Seq<(String, JsonValue)>) -> bool {
    lookup(members, "immediate"@) == Some(JsonValue::Bool(true))
}

/// `a` is the right action for a power command of `kind` with `param`,
/// guarded by the password `key`.
pub open spec fn power_action_ok(
    kind: PowerKind,
    param: Option<JsonValue>,
    key: Seq<char>,
    now: i64,
    a: UserAction,
) -> bool {
    match param {
        None => a matches UserAction::Power { kind: k, immediate, then } && k == kind && !immediate
            && is_default_reply(then, MsgType::SystemControl, now),
        Some(JsonValue::Object(members)) => match lookup(members@, "password"@) {
            None => a matches UserAction::Reply(r) && is_error_reply(r, MsgType::SystemControl, missing_password_message(), now),
            Some(password) => if !is_text(password, key) {
                a matches UserAction::Reply(r) && is_error_reply(r, MsgType::SystemControl, wrong_password_message(), now)
            } else {
                a matches UserAction::Power { kind: k, immediate, then } && k == kind && immediate
                    == immediate_flag(members@) && is_default_reply(then, MsgType::SystemControl, now)
            },
        },
        Some(_) => a matches UserAction::Reply(r) && is_error_reply(r, MsgType::SystemControl, bad_power_param_message(), now),
    }
}

/// The volume asked for by a volume change's parameter: the number taken as a
/// 64-bit integer (`-1` when it is none) and cut to its low byte, as a signed byte.
pub open spec fn requested_volume(v: JsonValue) -> i8 {
    let n: i64 = match value_as_i64(v) {
        Some(i) => i,
        None => -1i64,
    };
    n as i8
}

/// `a` is the right action for a volume change with `command`.
pub open spec fn set_volume_action_ok(command: Option<CommandModel>, now: i64, a: UserAction) -> bool {
    match command {
        None => a matches UserAction::Reply(r) && is_error_reply(r, MsgType::SetVolume, missing_volume_message(), now),
        Some(c) => match c.param {
            None => a matches UserAction::Reply(r) && is_error_reply(r, MsgType::SetVolume, missing_volume_value_message(), now),
            Some(v) => if requested_volume(v) < 0 {
                a matches UserAction::Reply(r) && is_error_reply(r, MsgType::SetVolume, bad_volume_message(), now)
            } else {
                a matches UserAction::ChangeVolume { volume } && volume == requested_volume(v) as u8
            },
        },
    }
}

/// `a` is the right action for an application request with `command`.
pub open spec fn launch_action_ok(command: Option<CommandModel>, now: i64, a: UserAction) -> bool {
    if command_is(command, "launch"@) {
        match command_param(command) {
            None => a matches UserAction::Reply(r) && is_error_reply(r, MsgType::LaunchApp, missing_launch_name_message(), now),
            Some(JsonValue::String(s)) => a matches UserAction::Launch { app_name } && app_name@
                == s@,
            Some(_) => a matches UserAction::Reply(r) && is_error_reply(r, MsgType::LaunchApp, bad_app_name_message(), now),
        }
    } else if command_is(command, "exit"@) {
        match command_param(command) {
            None => a matches UserAction::Reply(r) && is_error_reply(r, MsgType::LaunchApp, missing_exit_name_message(), now),
            Some(JsonValue::String(_)) => a matches UserAction::Reply(r) && is_default_reply(r, MsgType::LaunchApp, now),
            Some(_) => a matches UserAction::Reply(r) && is_error_reply(r, MsgType::LaunchApp, bad_app_name_message(), now),
        }
    } else {
        a matches UserAction::Reply(r) && is_default_reply(r, MsgType::LaunchApp, now)
    }
}

/// `a` is the right action, decided at `now`, for the checked request `req`,
/// with `key` the password of power commands.
pub open spec fn request_action_ok(req: MsgReqModel, key: Seq<char>, now: i64, a: UserAction) -> bool {
    match req.topic {
        MsgType::SystemControl => if command_named(req, "shutdown"@) {
            power_action_ok(PowerKind::Shutdown, param_of(req), key, now, a)
        } else if command_named(req, "reboot"@) {
            power_action_ok(PowerKind::Reboot, param_of(req), key, now, a)
        } else {
            a matches UserAction::Reply(r) && is_default_reply(r, MsgType::SystemControl, now)
        },
        MsgType::GetSystemInfo => if command_named(req, "get_system_info"@) {
            a is FetchSystemInfo
        } else {
            a matches UserAction::Reply(r) && is_default_reply(r, MsgType::GetSystemInfo, now)
        },
        MsgType::GetVolume => a is QueryVolume,
        MsgType::SetVolume => set_volume_action_ok(req.command, now, a),
        MsgType::LaunchApp => launch_action_ok(req.command, now, a),
        _ => a matches UserAction::Reply(r) && is_default_reply(r, req.topic, now),
    }
}

fn power_action(kind: PowerKind, param: Option<JsonValue>, key: &String, now: i64) -> (a: UserAction)
    ensures
        power_action_ok(kind, param, key@, now, a),
{
    match param {
        None => UserAction::Power {
            kind,
            immediate: false,
            then: default_reply(MsgType::SystemControl, now),
        },
        Some(JsonValue::Object(members)) => {
            let params = JsonValue::Object(members);
            match params.get("password") {
                None => UserAction::Reply(refuse(MsgType::SystemControl, "没输入密码", now)),
                Some(password) => {
                    if !password.is_text(key.as_str()) {
                        return UserAction::Reply(refuse(MsgType::SystemControl, "密码错误", now));
                    }
                    let immediate = match params.get("immediate") {
                        Some(flag) => match flag.as_bool() {
                            Some(b) => b,
                            None => false,
                        },
                        None => false,
                    };
                    UserAction::Power {
                        kind,
                        immediate,
                        then: default_reply(MsgType::SystemControl, now),
                    }
                },
            }
        },
        Some(_) => UserAction::Reply(refuse(MsgType::SystemControl, "param请输入bool值", now)),
    }
}

fn set_volume_action(command: Option<CommandModel>, now: i64) -> (a: UserAction)
    ensures
        set_volume_action_ok(command, now, a),
{
    match command {
        None => UserAction::Reply(refuse(MsgType::SetVolume, "未传入需要设置的音量", now)),
        Some(c) => match c.param {
            None => UserAction::Reply(refuse(MsgType::SetVolume, "未传入需要设置的音量值", now)),
            Some(v) => {
                let n: i64 = match v.as_i64() {
                    Some(i) => i,
                    None => -1,
                };
                #[verifier::truncate]
                let volume: i8 = n as i8;
                if volume < 0 {
                    UserAction::Reply(refuse(MsgType::SetVolume, "数据格式化出错，请检查你的传入数据", now))
                } else {
                    #[verifier::truncate]
                    let level: u8 = volume as u8;
                    UserAction::ChangeVolume { volume: level }
                }
            },
        },
    }
}

fn app_name_of(param: Option<JsonValue>, missing: &str, now: i64) -> (r: Result<String, MsgRspModel<JsonValue>>)
    ensures
        match param {
            None => r matches Err(e) && is_error_reply(e, MsgType::LaunchApp, missing@, now),
            Some(JsonValue::String(s)) => r matches Ok(name) && name@ == s@,
            Some(_) => r matches Err(e) && is_error_reply(e, MsgType::LaunchApp, bad_app_name_message(), now),
        },
{
    match param {
        None => Err(refuse(MsgType::LaunchApp, missing, now)),
        Some(JsonValue::String(s)) => Ok(s),
        Some(_) => Err(refuse(MsgType::LaunchApp, "您输入的应用名称格式不对，请输入字符串", now)),
    }
}

fn launch_action(command: Option<CommandModel>, now: i64) -> (a: UserAction)
    ensures
        launch_action_ok(command, now, a),
{
    match command {
        Some(c) => {
            if same_text(c.command_type.as_str(), "launch") {
                match app_name_of(c.param, "请输入需要启动的app名称", now) {
                    Ok(app_name) => UserAction::Launch { app_name },
                    Err(r) => UserAction::Reply(r),
                }
            } else if same_text(c.command_type.as_str(), "exit") {
                match app_name_of(c.param, "请输入需要退出的app名称", now) {
                    Ok(_) => UserAction::Reply(default_reply(MsgType::LaunchApp, now)),
                    Err(r) => UserAction::Reply(r),
                }
            } else {
                UserAction::Reply(default_reply(MsgType::LaunchApp, now))
            }
        },
        None => UserAction::Reply(default_reply(MsgType::LaunchApp, now)),
    }
}

/// Decides, at `now`, what to do about a checked request; `security` holds
/// the password that power commands must carry when they carry parameters.
pub fn decide_request(req: MsgReqModel, security: &SecurityConfig, now: i64) -> (a: UserAction)
    requires
        !is_unimplemented(req),
    ensures
        request_action_ok(req, security.shutdown_key@, now, a),
{
    let topic = req.topic;
    match topic {
        MsgType::SystemControl => match req.command {
            Some(c) => {
                if same_text(c.command_type.as_str(), "shutdown") {
                    power_action(PowerKind::Shutdown, c.param, &security.shutdown_key, now)
                } else if same_text(c.command_type.as_str(), "reboot") {
                    power_action(PowerKind::Reboot, c.param, &security.shutdown_key, now)
                } else {
                    UserAction::Reply(default_reply(topic, now))
                }
            },
            None => UserAction::Reply(default_reply(topic, now)),
        },
        MsgType::GetSystemInfo => match req.command {
            Some(c) => {
                if same_text(c.command_type.as_str(), "get_system_info") {
                    UserAction::FetchSystemInfo
                } else {
                    UserAction::Reply(default_reply(topic, now))
                }
            },
            None => UserAction::Reply(default_reply(topic, now)),
        },
        MsgType::GetVolume => UserAction::QueryVolume,
        MsgType::SetVolume => set_volume_action(req.command, now),
        MsgType::LaunchApp => launch_action(req.command, now),
        _ => UserAction::Reply(default_reply(topic, now)),
    }
}

/// The topic a refusal of a message carries: that of the request it decoded
/// into, or `Error` for a message that was not a request at all.
pub open spec fn refusal_topic(decoded_topic: Option<MsgType>) -> MsgType {
    match decoded_topic {
        Some(t) => t,
        None => MsgType::Error,
    }
}

/// `a` is what is done, at `now`, about the outcome `checked` of checking a
/// message that decoded into a request on `decoded_topic`, if it did (see
/// [`handle_msg`]).
pub open spec fn handled(
    checked: Result<MsgReqModel, String>,
    decoded_topic: Option<MsgType>,
    key: Seq<char>,
    now: i64,
    a: UserAction,
) -> bool {
    match checked {
        Err(e) => a matches UserAction::Reply(r) && is_error_reply(
            r,
            refusal_topic(decoded_topic),
            e@,
            now,
        ),
        Ok(req) => request_action_ok(req, key, now, a),
    }
}

/// Decides, at `now`, what to do about the outcome of checking a message (see
/// [`crate::request::parse_message`]); `decoded_topic` is the topic of the
/// request the message decoded into, if it decoded. A refused message is
/// answered with its refusal on that topic; a checked request as
/// [`decide_request`] decides.
pub fn handle_msg(
    checked: Result<MsgReqModel, String>,
    decoded_topic: Option<MsgType>,
    security: &SecurityConfig,
    now: i64,
) -> (a: UserAction)
    requires
        checked matches Ok(req) ==> decoded_topic == Some(req.topic) && !is_unimplemented(req),
    ensures
        handled(checked, decoded_topic, security.shutdown_key@, now, a),
{
    match checked {
        Err(e) => {
            let topic = match decoded_topic {
                Some(t) => t,
                None => MsgType::Error,
            };
            UserAction::Reply(MsgRspModel::error(topic, Some(e), now))
        },
        Ok(req) => decide_request(req, security, now),
    }
}

/// The reply, at `now`, once the system information was read: `info` as
/// data, or a refusal when none could be read.
pub fn reply_after_system_info(topic: MsgType, info: Option<JsonValue>, now: i64) -> (r: MsgRspModel<JsonValue>)
    ensures
        info is None ==> is_error_reply(r, topic, no_system_info_message(), now),
        info is Some ==> is_success_reply(r, topic, now) && r.data == info,
{
    match info {
        Some(data) => MsgRspModel::success(topic, data, None, now),
        None => refuse(topic, "未获取到系统信息", now),
    }
}

/// The reply, at `now`, once the audio device was asked for its volume: the
/// volume, as `{"volume": v}`, when it answered with one below 128 (the
/// largest a signed byte holds); otherwise a refusal.
pub fn reply_after_volume(topic: MsgType, outcome: VolumeOutcome, now: i64) -> (r: MsgRspModel<JsonValue>)
    ensures
        outcome matches VolumeOutcome::SendFailed(reason) ==> is_error_reply(r, topic, reason@, now),
        outcome matches VolumeOutcome::Answered(v) ==> if v < 128 {
            is_success_reply(r, topic, now) && (r.data matches Some(d) && is_volume_object(d, v))
        } else {
            is_error_reply(r, topic, no_volume_message(), now)
        },
        outcome is NoAnswer ==> is_error_reply(r, topic, no_volume_message(), now),
{
    match outcome {
        VolumeOutcome::SendFailed(reason) => MsgRspModel::error(topic, Some(reason), now),
        VolumeOutcome::Answered(v) => {
            if v < 128 {
                MsgRspModel::success(topic, volume_object(v), None, now)
            } else {
                refuse(topic, "没有获取到系统音量", now)
            }
        },
        VolumeOutcome::NoAnswer => refuse(topic, "没有获取到系统音量", now),
    }
}

/// The reply, at `now`, once the application was launched (an empty string as
/// data), or failed to, for the given reason.
pub fn reply_after_launch(topic: MsgType, outcome: Result<(), String>, now: i64) -> (r: MsgRspModel<JsonValue>)
    ensures
        outcome is Ok ==> is_success_reply(r, topic, now) && (r.data matches Some(d) && is_text(
            d,
            Seq::<char>::empty(),
        )),
        outcome matches Err(reason) ==> is_error_reply(r, topic, launch_failed_message(reason@), now),
{
    match outcome {
        Ok(()) => MsgRspModel::success(topic, JsonValue::String(String::new()), None, now),
        Err(reason) => MsgRspModel::error(
            topic,
            Some(String::from_str("启动失败").concat(reason.as_str())),
            now,
        ),
    }
}

/// A shutdown or reboot whose command carries parameters only happens when
/// they are an object holding the configured password as a string.
pub proof fn lemma_power_needs_password(req: MsgReqModel, key: Seq<char>, now: i64, a: UserAction)
    requires
        request_action_ok(req, key, now, a),
        a is Power,
        param_of(req) is Some,
    ensures
        param_of(req) matches Some(JsonValue::Object(members)) && (lookup(members@, "password"@) matches Some(
            password,
        ) && is_text(password, key)),
{
}

/// Power commands only come from system-control requests named `shutdown`
/// or `reboot`, and the kind follows the name.
pub proof fn lemma_power_only_when_asked(req: MsgReqModel, key: Seq<char>, now: i64, a: UserAction)
    requires
        request_action_ok(req, key, now, a),
        a is Power,
    ensures
        req.topic == MsgType::SystemControl,
        a->kind == PowerKind::Shutdown ==> command_named(req, "shutdown"@),
        a->kind == PowerKind::Reboot ==> command_named(req, "reboot"@) && !command_named(
            req,
            "shutdown"@,
        ),
{
}

/// Every reply decided for a checked request, including the one sent after
/// powering off, answers on the request's own topic at the time given, and
/// carries a message exactly when it refuses.
pub proof fn lemma_replies_answer_request(req: MsgReqModel, key: Seq<char>, now: i64, a: UserAction)
    requires
        request_action_ok(req, key, now, a),
    ensures
        a matches UserAction::Reply(r) ==> answers(r, req.topic, now),
        a matches UserAction::Power { then, .. } ==> answers(then, req.topic, now),
{
}

/// A request without a token is refused on its own topic, whatever else it
/// holds, and nothing is done about it.
pub proof fn lemma_tokenless_request_refused(
    decoded: Result<MsgReqModel, String>,
    checked: Result<MsgReqModel, String>,
    key: Seq<char>,
    now: i64,
    a: UserAction,
)
    requires
        decoded matches Ok(req) && req.token@.len() == 0,
        checked_outcome(decoded, checked),
        handled(checked, Some(decoded->Ok_0.topic), key, now, a),
    ensures
        a matches UserAction::Reply(r) && is_error_reply(
            r,
            decoded->Ok_0.topic,
            empty_token_message(),
            now,
        ),
{
}

/// A volume change never asks for more than 127.
pub proof fn lemma_volume_change_bounded(req: MsgReqModel, key: Seq<char>, now: i64, a: UserAction)
    requires
        request_action_ok(req, key, now, a),
        a is ChangeVolume,
    ensures
        a->volume <= 127,
{
    let v = param_of(req)->0;
    let t = requested_volume(v);
    assert(0 <= t ==> (t as u8) as int == t as int);
}

/// A shutdown or reboot whose parameters hold the right password happens at
/// once exactly when their member `immediate` is the JSON boolean `true`; in
/// particular `"immediate": false`, or any other value, or none, delays it.
pub proof fn lemma_power_immediate_follows_flag(
    req: MsgReqModel,
    key: Seq<char>,
    now: i64,
    a: UserAction,
    members: Vec<(String, JsonValue)>,
    password: JsonValue,
)
    requires
        request_action_ok(req, key, now, a),
        req.topic == MsgType::SystemControl,
        command_named(req, "shutdown"@) || command_named(req, "reboot"@),
        param_of(req) == Some(JsonValue::Object(members)),
        lookup(members@, "password"@) == Some(password),
        password matches JsonValue::String(s) && s@ == key,
    ensures
        a is Power,
        a->immediate <==> lookup(members@, "immediate"@) == Some(JsonValue::Bool(true)),
        lookup(members@, "immediate"@) == Some(JsonValue::Bool(false)) ==> !a->immediate,
        lookup(members@, "immediate"@) is None ==> !a->immediate,
{
}

/// A volume change given as a whole number from 0 to 127 sets exactly that
/// volume.
pub proof fn lemma_volume_in_range_is_set(req: MsgReqModel, key: Seq<char>, now: i64, a: UserAction, n: u64)
    requires
        request_action_ok(req, key, now, a),
        req.topic == MsgType::SetVolume,
        param_of(req) == Some(JsonValue::Number(JsonNumber::PosInt(n))),
        n <= 127,
    ensures
        a matches UserAction::ChangeVolume { volume } && volume as u64 == n,
{
    let i = n as i64;
    assert(i as i8 == i);
    assert((i as i8) as u8 == i);
}

/// A volume change given as a negative number from -128 to -1 is refused, and
/// nothing is set.
pub proof fn lemma_negative_volume_is_refused(req: MsgReqModel, key: Seq<char>, now: i64, a: UserAction, n: i64)
    requires
        request_action_ok(req, key, now, a),
        req.topic == MsgType::SetVolume,
        param_of(req) == Some(JsonValue::Number(JsonNumber::NegInt(n))),
        -128 <= n < 0,
    ensures
        a matches UserAction::Reply(r) && !r.success && r.msg_type == MsgType::SetVolume,
{
    assert(n as i8 == n);
}

/// A shutdown or reboot whose parameter object holds a password that is not
/// the configured one, as a string, is refused and the machine keeps running.
pub proof fn lemma_wrong_password_refused(
    req: MsgReqModel,
    key: Seq<char>,
    now: i64,
    a: UserAction,
    members: Vec<(String, JsonValue)>,
    password: JsonValue,
)
    requires
        request_action_ok(req, key, now, a),
        req.topic == MsgType::SystemControl,
        command_named(req, "shutdown"@) || command_named(req, "reboot"@),
        param_of(req) == Some(JsonValue::Object(members)),
        lookup(members@, "password"@) == Some(password),
        !(password matches JsonValue::String(s) && s@ == key),
    ensures
        a matches UserAction::Reply(r) && !r.success && r.msg_type == MsgType::SystemControl,
{
}

} // verus!
