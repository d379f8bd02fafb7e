//! The messages exchanged with the websocket clients and the configuration
//! of the server.

use vstd::prelude::*;
use crate::json::JsonValue;

verus! {

/// What a message is about. Replies to refused requests carry `Error`.
#[derive(Debug, Clone, Copy, PartialEq, Eq, Structural)]
pub enum MsgType {
    LaunchApp,
    SystemControl,
    GetSystemInfo,
    GetVolume,
    SetVolume,
    BrowserControl,
    Ping,
    Error,
}

/// The command of a request: its kind and its optional parameter.
#[derive(Debug)]
pub struct CommandModel {
    pub command_type: String,
    pub param: Option<JsonValue>,
}

/// A request sent by a websocket client.
#[derive(Debug)]
pub struct MsgReqModel {
    /// What the request is about.
    pub topic: MsgType,
    /// Proves that the message is genuine; must not be empty.
    pub token: String,
    /// The command; a ping needs none.
    pub command: Option<CommandModel>,
    /// When it was sent, in seconds since the Unix epoch.
    pub date_time: i64,
}

/// A reply to a websocket client.
#[derive(Debug)]
pub struct MsgRspModel<T> {
    /// The topic of the request answered; `Error` only for a message that
    /// was not a request at all.
    pub msg_type: MsgType,
    pub token: String,
    /// The data answered, if any.
    pub data: Option<T>,
    /// `0` on success, `-1` on error.
    pub code: i32,
    /// Why the request failed; `None` when nothing failed.
    pub msg: Option<String>,
    pub success: bool,
    /// When it was sent, in seconds since the Unix epoch.
    pub date_time: i64,
}

impl<T> MsgRspModel<T> {
    /// A successful reply on `msg_type` carrying `data`, sent at `now`.
    pub fn success(msg_type: MsgType, data: T, msg: Option<String>, now: i64) -> (r: Self)
        ensures
            r.msg_type == msg_type,
            r.token@ == Seq::<char>::empty(),
            r.data == Some(data),
            r.code == 0,
            r.msg == msg,
            r.success,
            r.date_time == now,
    {
        MsgRspModel {
            msg_type,
            token: String::new(),
            data: Some(data),
            code: 0,
            msg,
            success: true,
            date_time: now,
        }
    }

    /// A failed reply on `msg_type`, without data, sent at `now`.
    pub fn error(msg_type: MsgType, msg: Option<String>, now: i64) -> (r: Self)
        ensures
            r.msg_type == msg_type,
            r.token@ == Seq::<char>::empty(),
            r.data is None,
            r.code == -1,
            r.msg == msg,
            !r.success,
            r.date_time == now,
    {
        MsgRspModel {
            msg_type,
            token: String::new(),
            data: None,
            code: -1,
            msg,
            success: false,
            date_time: now,
        }
    }
}

/// The whole configuration of the server.
#[derive(Debug)]
pub struct AppConfig {
    pub web_server: WebServerConfig,
    pub security: SecurityConfig,
    /// Names of applications mapped to what launches them, if configured.
    pub launch_apps: Option<JsonValue>,
}

/// Where and how the web server listens.
#[derive(Debug, Clone)]
pub struct WebServerConfig {
    pub enable: bool,
    pub host: String,
    pub port: u16,
    pub https: bool,
}

/// The secrets that guard dangerous commands.
#[derive(Debug, Clone)]
pub struct SecurityConfig {
    /// The password that shutting down or rebooting asks for.
    pub shutdown_key: String,
}

impl AppConfig {
    /// The web server part of the configuration.
    pub fn get_server(&self) -> (r: &WebServerConfig)
        ensures
            *r == self.web_server,
    {
        &self.web_server
    }

    /// The security part of the configuration, that is the password.
    pub fn get_security(&self) -> (r: &SecurityConfig)
        ensures
            *r == self.security,
    {
        &self.security
    }
}

/// The token given in the query of a websocket connection.
#[derive(Debug, Clone, PartialEq, Eq)]
pub struct QueryAuth {
    token: String,
}

impl View for QueryAuth {
    type V = Seq<char>;

    closed spec fn view(&self) -> Seq<char> {
        self.token@
    }
}

impl QueryAuth {
    /// The query holding `token`.
    pub fn new(token: String) -> (r: Self)
        ensures
            r@ == token@,
    {
        QueryAuth { token }
    }

    /// The token of the query.
    pub fn token(&self) -> (r: &String)
        ensures
            r@ == self@,
    {
        &self.token
    }
}

} // verus!
