//! Checks that a decoded request is acceptable before it is acted on.

use vstd::prelude::*;
use crate::models::MsgReqModel;

verus! {

/// The earliest instant `chrono` represents, -262143-01-01 00:00:00 UTC (the
/// first day of its earliest year), in seconds since the Unix epoch.
pub const EARLIEST_TIMESTAMP: i64 = -8334601228800i64;

/// The latest instant `chrono` represents at whole seconds, 262142-12-31
/// 23:59:59 UTC (the end of its latest year), in seconds since the Unix epoch.
pub const LATEST_TIMESTAMP: i64 = 8210266876799i64;

/// Whether `chrono` can represent the instant `secs` seconds after the Unix
/// epoch as a UTC date and time: whether it falls within chrono's years.
pub open spec fn timestamp_in_range(secs: i64) -> bool {
    EARLIEST_TIMESTAMP <= secs <= LATEST_TIMESTAMP
}

/// Calls `chrono::DateTime::from_timestamp(secs, 0)` and tells whether it gave
/// a date. Claimed: it does exactly when `secs` lies between
/// [`EARLIEST_TIMESTAMP`] and [`LATEST_TIMESTAMP`], the two ends of chrono's
/// year range `(i32::MIN >> 13) + 1 ..= (i32::MAX >> 13) - 1`.
#[verifier::external_body]
fn utc_timestamp_exists(secs: i64) -> (r: bool)
    ensures
        r == timestamp_in_range(secs),
{
    match chrono::DateTime::from_timestamp(secs, 0) {
        Some(_) => true,
        None => false,
    }
}

/// The refusal of a message that is not a request.
pub open spec fn malformed_message(reason: Seq<char>) -> Seq<char> {
    "JSON 不符合 MsgReqModel 格式: "@ + reason
}

/// The refusal of a request without a token.
pub open spec fn empty_token_message() -> Seq<char> {
    "token 不能为空"@
}

/// The refusal of a request whose time cannot be a date.
pub open spec fn bad_time_message() -> Seq<char> {
    "date_time 格式无效"@
}

/// Checks a decoded request, given whether its `date_time` is a valid
/// timestamp: a request without a token is refused first, then one whose
/// time is not a valid timestamp; any other request is accepted as it is.
pub fn validate_request(req: MsgReqModel, date_time_valid: bool) -> (r: Result<MsgReqModel, String>)
    ensures
        req.token@.len() == 0 ==> (r matches Err(e) && e@ == empty_token_message()),
        req.token@.len() != 0 && !date_time_valid ==> (r matches Err(e) && e@
            == bad_time_message()),
        req.token@.len() != 0 && date_time_valid ==> r == Ok::<MsgReqModel, String>(req),
{
    if req.token.as_str().is_empty() {
        return Err(String::from_str("token 不能为空"));
    }
    if !date_time_valid {
        return Err(String::from_str("date_time 格式无效"));
    }
    Ok(req)
}

/// `r` is what checking the decoding outcome `decoded` gives (see [`parse_message`]).
pub open spec fn checked_outcome(decoded: Result<MsgReqModel, String>, r: Result<MsgReqModel, String>) -> bool {
    match decoded {
        Err(reason) => r matches Err(e) && e@ == malformed_message(reason@),
        Ok(req) => {
            &&& req.token@.len() == 0 ==> (r matches Err(e) && e@ == empty_token_message())
            &&& req.token@.len() != 0 && !timestamp_in_range(req.date_time) ==> (r matches Err(e)
                && e@ == bad_time_message())
            &&& req.token@.len() != 0 && timestamp_in_range(req.date_time) ==> r == Ok::<
                MsgReqModel,
                String,
            >(req)
        },
    }
}

/// Turns the outcome of decoding a message into a checked request. A message
/// that did not decode is refused with the decoder's reason; a decoded one is
/// checked as [`validate_request`] does, its time against `chrono`.
pub fn parse_message(decoded: Result<MsgReqModel, String>) -> (r: Result<MsgReqModel, String>)
    ensures
        checked_outcome(decoded, r),
{
    match decoded {
        Ok(req) => {
            if req.token.as_str().is_empty() {
                return validate_request(req, false);
            }
            let valid = utc_timestamp_exists(req.date_time);
            validate_request(req, valid)
        },
        Err(reason) => Err(
            String::from_str("JSON 不符合 MsgReqModel 格式: ").concat(reason.as_str()),
        ),
    }
}

/// Checking again a request that passed the checks lets it pass unchanged.
pub proof fn lemma_check_is_idempotent(
    decoded: Result<MsgReqModel, String>,
    checked: Result<MsgReqModel, String>,
    again: Result<MsgReqModel, String>,
)
    requires
        checked_outcome(decoded, checked),
        checked is Ok,
        checked_outcome(checked, again),
    ensures
        again == checked,
{
}

} // verus!
