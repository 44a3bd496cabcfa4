//! What the HTTP interface answers: status codes and response envelopes,
//! and the reading of the hourly-summary query string.

use crate::models::ApiResponse;
use crate::models::HourlyQuery;
use crate::models::HourlyQueryParams;
use crate::models::HourlyTemperature;
use crate::models::TemperatureRecord;
use crate::time::chrono_parse_rfc3339;
use crate::time::spec_parse_rfc3339;
use crate::time::Timestamp;
use vstd::prelude::*;

verus! {

/// HTTP 200.
pub const STATUS_OK: u16 = 200;

/// HTTP 400.
pub const STATUS_BAD_REQUEST: u16 = 400;

/// HTTP 500.
pub const STATUS_INTERNAL_SERVER_ERROR: u16 = 500;

/// The answer to an operation: on success status 200 and the data; on
/// failure status 500 and the reason, after `failure_prefix`.
pub fn reply_for<T>(result: Result<T, String>, failure_prefix: &str) -> (r: (u16, ApiResponse<T>))
    ensures
        match result {
            Ok(d) => r.0 == STATUS_OK && r.1.success && r.1.message@ == "操作成功"@ && r.1.data
                == Some(d),
            Err(e) => r.0 == STATUS_INTERNAL_SERVER_ERROR && !r.1.success && r.1.message@
                == failure_prefix@ + e@ && r.1.data is None,
        },
{
    match result {
        Ok(d) => (STATUS_OK, ApiResponse::success(d)),
        Err(e) => {
            let mut message = String::from_str(failure_prefix);
            message.append(e.as_str());
            (STATUS_INTERNAL_SERVER_ERROR, ApiResponse::error(message.as_str()))
        },
    }
}

/// The answer to a single report: the stored record, or status 500 with
/// `上报失败: ` and the reason.
pub fn report_temperature_reply(result: Result<TemperatureRecord, String>) -> (r: (
    u16,
    ApiResponse<TemperatureRecord>,
))
    ensures
        match result {
            Ok(d) => r.0 == STATUS_OK && r.1.success && r.1.message@ == "操作成功"@ && r.1.data
                == Some(d),
            Err(e) => r.0 == STATUS_INTERNAL_SERVER_ERROR && !r.1.success && r.1.message@
                == "上报失败: "@ + e@ && r.1.data is None,
        },
{
    reply_for(result, "上报失败: ")
}

/// The answer to a batch of reports: the stored records, or status 500 with
/// `批量上报失败: ` and the reason.
pub fn batch_report_reply(result: Result<Vec<TemperatureRecord>, String>) -> (r: (
    u16,
    ApiResponse<Vec<TemperatureRecord>>,
))
    ensures
        match result {
            Ok(d) => r.0 == STATUS_OK && r.1.success && r.1.message@ == "操作成功"@ && r.1.data
                == Some(d),
            Err(e) => r.0 == STATUS_INTERNAL_SERVER_ERROR && !r.1.success && r.1.message@
                == "批量上报失败: "@ + e@ && r.1.data is None,
        },
{
    reply_for(result, "批量上报失败: ")
}

/// The answer to an hourly-summary query: the summaries, or status 500 with
/// `查询失败: ` and the reason.
pub fn hourly_reply(result: Result<Vec<HourlyTemperature>, String>) -> (r: (
    u16,
    ApiResponse<Vec<HourlyTemperature>>,
))
    ensures
        match result {
            Ok(d) => r.0 == STATUS_OK && r.1.success && r.1.message@ == "操作成功"@ && r.1.data
                == Some(d),
            Err(e) => r.0 == STATUS_INTERNAL_SERVER_ERROR && !r.1.success && r.1.message@
                == "查询失败: "@ + e@ && r.1.data is None,
        },
{
    reply_for(result, "查询失败: ")
}

/// The answer of the health check.
pub fn health_reply() -> (r: (u16, ApiResponse<String>))
    ensures
        r.0 == STATUS_OK,
        r.1.success,
        r.1.message@ == "操作成功"@,
        r.1.data matches Some(d) && d@ == "服务运行正常"@,
{
    (STATUS_OK, ApiResponse::success(String::from_str("服务运行正常")))
}

/// Message for an unreadable `start_time`.
pub open spec fn bad_start_time_message() -> Seq<char> {
    "start_time 格式错误，请使用 RFC3339 格式"@
}

/// Message for an unreadable `end_time`.
pub open spec fn bad_end_time_message() -> Seq<char> {
    "end_time 格式错误，请使用 RFC3339 格式"@
}

/// Where reading a query goes, given what became of each time text: absent
/// (`None`), unreadable (`Some(None)`) or read (`Some(Some(t))`).  The start
/// is looked at first.
pub open spec fn hourly_params_outcome(
    start: Option<Option<Timestamp>>,
    end: Option<Option<Timestamp>>,
) -> Result<(Option<Timestamp>, Option<Timestamp>), Seq<char>> {
    if start == Some(None::<Timestamp>) {
        Err(bad_start_time_message())
    } else if end == Some(None::<Timestamp>) {
        Err(bad_end_time_message())
    } else {
        Ok(
            (
                match start {
                    Some(t) => t,
                    None => None,
                },
                match end {
                    Some(t) => t,
                    None => None,
                },
            ),
        )
    }
}

/// The answer, or the filters, for a query whose time texts have been read
/// as `start` and `end` (see `hourly_params_outcome`): an unreadable time is
/// answered with status 400 and a message that names it.
pub fn hourly_params_from(
    device_id: Option<String>,
    start: Option<Option<Timestamp>>,
    end: Option<Option<Timestamp>>,
) -> (r: Result<HourlyQueryParams, (u16, ApiResponse<Vec<HourlyTemperature>>)>)
    ensures
        match hourly_params_outcome(start, end) {
            Ok((s, e)) => r matches Ok(p) && p.device_id == device_id && p.start_time == s
                && p.end_time == e,
            Err(m) => r matches Err(a) && a.0 == STATUS_BAD_REQUEST && !a.1.success && a.1.message@
                == m && a.1.data is None,
        },
        r is Ok <==> (start != Some(None::<Timestamp>) && end != Some(None::<Timestamp>)),
        r matches Ok(p) ==> (match start {
            Some(Some(t)) => p.start_time == Some(t),
            _ => p.start_time is None,
        }),
        r matches Ok(p) ==> (match end {
            Some(Some(t)) => p.end_time == Some(t),
            _ => p.end_time is None,
        }),
{
    let start_time = match start {
        Some(Some(t)) => Some(t),
        Some(None) => {
            return Err(
                (STATUS_BAD_REQUEST, ApiResponse::error("start_time 格式错误，请使用 RFC3339 格式")),
            );
        },
        None => None,
    };
    let end_time = match end {
        Some(Some(t)) => Some(t),
        Some(None) => {
            return Err(
                (STATUS_BAD_REQUEST, ApiResponse::error("end_time 格式错误，请使用 RFC3339 格式")),
            );
        },
        None => None,
    };
    Ok(HourlyQueryParams { device_id, start_time, end_time })
}

/// What reading an optional time text gives.
pub open spec fn parsed_text(text: Option<String>) -> Option<Option<Timestamp>> {
    match text {
        Some(s) => Some(spec_parse_rfc3339(s@)),
        None => None,
    }
}

/// Reads the filters of an hourly-summary query: the times must be RFC 3339
/// texts; an unreadable one is answered with status 400.  The end is only
/// read when the start is fine.
pub fn parse_hourly_query(query: HourlyQuery) -> (r: Result<
    HourlyQueryParams,
    (u16, ApiResponse<Vec<HourlyTemperature>>),
>)
    ensures
        match hourly_params_outcome(parsed_text(query.start_time), parsed_text(query.end_time)) {
            Ok((s, e)) => r matches Ok(p) && p.device_id == query.device_id && p.start_time == s
                && p.end_time == e,
            Err(m) => r matches Err(a) && a.0 == STATUS_BAD_REQUEST && !a.1.success && a.1.message@
                == m && a.1.data is None,
        },
{
    let start: Option<Option<Timestamp>> = match &query.start_time {
        Some(s) => Some(chrono_parse_rfc3339(s.as_str())),
        None => None,
    };
    if let Some(None) = start {
        return hourly_params_from(query.device_id, start, None);
    }
    let end: Option<Option<Timestamp>> = match &query.end_time {
        Some(s) => Some(chrono_parse_rfc3339(s.as_str())),
        None => None,
    };
    hourly_params_from(query.device_id, start, end)
}

/// Each read time stays in its own slot: a readable end time becomes the
/// end of the range and a readable start time its start, whatever the
/// other one is; a time that was not given leaves its slot empty; an
/// unreadable start is reported before an unreadable end.
pub proof fn law_hourly_times_keep_their_slots(
    start: Option<Option<Timestamp>>,
    end: Option<Option<Timestamp>>,
    t: Timestamp,
)
    ensures
        (end == Some(Some(t)) && start != Some(None::<Timestamp>)) ==> (hourly_params_outcome(
            start,
            end,
        ) matches Ok((_, e)) && e == Some(t)),
        (start == Some(Some(t)) && end != Some(None::<Timestamp>)) ==> (hourly_params_outcome(
            start,
            end,
        ) matches Ok((s, _)) && s == Some(t)),
        (start is None && end != Some(None::<Timestamp>)) ==> (hourly_params_outcome(
            start,
            end,
        ) matches Ok((s, _)) && s is None),
        (end is None && start != Some(None::<Timestamp>)) ==> (hourly_params_outcome(
            start,
            end,
        ) matches Ok((_, e)) && e is None),
        start == Some(None::<Timestamp>) ==> hourly_params_outcome(start, end) == Err::<
            (Option<Timestamp>, Option<Timestamp>),
            Seq<char>,
        >(bad_start_time_message()),
        (end == Some(None::<Timestamp>) && start != Some(None::<Timestamp>)) ==> hourly_params_outcome(
            start,
            end,
        ) == Err::<(Option<Timestamp>, Option<Timestamp>), Seq<char>>(bad_end_time_message()),
{
}

} // verus!
