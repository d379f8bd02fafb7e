//! The decisions taken on a request of the browser websocket.

use vstd::prelude::*;
use crate::json::JsonValue;
use crate::models::{MsgType, MsgReqModel, MsgRspModel, SecurityConfig};
use crate::replies::{is_error_reply, is_default_reply, default_reply};
use crate::user_service::{command_named, refusal_topic};

verus! {

/// Browser requests whose handling was never written: douyin.
pub open spec fn is_unimplemented(req: MsgReqModel) -> bool {
    req.topic == MsgType::BrowserControl && command_named(req, "douyin"@)
}

/// Answers, at `now`, the outcome of checking a browser message that decoded
/// into a request on `decoded_topic`, if it did: a refused message gets its
/// refusal on that topic; every checked request gets the default reply on
/// its topic.
pub fn handle_msg(
    checked: Result<MsgReqModel, String>,
    decoded_topic: Option<MsgType>,
    security_config: &SecurityConfig,
    launch_apps: &Option<JsonValue>,
    now: i64,
) -> (r: MsgRspModel<JsonValue>)
    requires
        checked matches Ok(req) ==> decoded_topic == Some(req.topic) && !is_unimplemented(req),
    ensures
        checked matches Err(e) ==> is_error_reply(r, refusal_topic(decoded_topic), e@, now),
        checked matches Ok(req) ==> is_default_reply(r, req.topic, now),
{
    match checked {
        Err(e) => {
            let topic = match decoded_topic {
                Some(t) => t,
                None => MsgType::Error,
            };
            MsgRspModel::error(topic, Some(e), now)
        },
        Ok(req) => default_reply(req.topic, now),
    }
}

} // verus!
