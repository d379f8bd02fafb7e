//! The shapes of the replies sent to websocket clients. A reply carries the
//! topic of the request it answers, the time it was sent, and a message only
//! when something failed.

use vstd::prelude::*;
use crate::json::{JsonValue, JsonNumber, is_text};
use crate::models::{MsgType, MsgRspModel};

verus! {

/// `r` refuses a request on `topic` with the message `text`, sent at `now`.
pub open spec fn is_error_reply(r: MsgRspModel<JsonValue>, topic: MsgType, text: Seq<char>, now: i64) -> bool {
    &&& r.msg_type == topic
    &&& r.token@.len() == 0
    &&& r.data is None
    &&& r.code == -1
    &&& r.msg matches Some(m) && m@ == text
    &&& !r.success
    &&& r.date_time == now
}

/// `r` answers a request on `topic` successfully, without a message, sent at `now`.
pub open spec fn is_success_reply(r: MsgRspModel<JsonValue>, topic: MsgType, now: i64) -> bool {
    &&& r.msg_type == topic
    &&& r.token@.len() == 0
    &&& r.code == 0
    &&& r.msg is None
    &&& r.success
    &&& r.date_time == now
}

/// `r` answers a request on `topic`, sent at `now`: it carries a message
/// exactly when it failed, and its code says whether it did.
pub open spec fn answers(r: MsgRspModel<JsonValue>, topic: MsgType, now: i64) -> bool {
    &&& r.msg_type == topic
    &&& r.date_time == now
    &&& (r.success <==> r.msg is None)
    &&& (r.success <==> r.code == 0)
}

/// The data of the reply given when a request needs no other answer.
pub open spec fn default_data() -> Seq<char> {
    "128128182"@
}

/// `r` is the reply given on `topic` at `now` when the request needs no other answer.
pub open spec fn is_default_reply(r: MsgRspModel<JsonValue>, topic: MsgType, now: i64) -> bool {
    &&& is_success_reply(r, topic, now)
    &&& r.data matches Some(d) && is_text(d, default_data())
}

/// `d` is the object `{"volume": v}`.
pub open spec fn is_volume_object(d: JsonValue, v: u8) -> bool {
    &&& d matches JsonValue::Object(m)
    &&& m@.len() == 1
    &&& m@[0].0@ == "volume"@
    &&& m@[0].1 == JsonValue::Number(JsonNumber::PosInt(v as u64))
}

/// A refusal of a request on `topic` with the message `text`, sent at `now`.
pub fn refuse(topic: MsgType, text: &str, now: i64) -> (r: MsgRspModel<JsonValue>)
    ensures
        is_error_reply(r, topic, text@, now),
{
    MsgRspModel::error(topic, Some(String::from_str(text)), now)
}

/// The reply given on `topic` at `now` when the request needs no other answer.
pub fn default_reply(topic: MsgType, now: i64) -> (r: MsgRspModel<JsonValue>)
    ensures
        is_default_reply(r, topic, now),
{
    MsgRspModel::success(topic, JsonValue::String(String::from_str("128128182")), None, now)
}

/// The object `{"volume": v}`.
pub fn volume_object(v: u8) -> (d: JsonValue)
    ensures
        is_volume_object(d, v),
{
    let members = vec![(String::from_str("volume"), JsonValue::Number(JsonNumber::PosInt(v as u64)))];
    JsonValue::Object(members)
}

} // verus!
