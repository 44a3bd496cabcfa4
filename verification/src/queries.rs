//! The read queries of the store: their SQL text and the values bound to
//! their `?` placeholders, in order.

use crate::models::HourlyQueryParams;
use crate::time::chrono_add_hours;
use crate::time::chrono_utc_now;
use crate::time::spec_one_hour_later;
use crate::time::Timestamp;
use crate::time::MAX_TIMESTAMP_SECS;
use crate::time::SECONDS_PER_HOUR;
use vstd::prelude::*;

verus! {

/// A value bound to a placeholder.
#[derive(Debug)]
pub enum SqlParam {
    Text(String),
    Time(Timestamp),
}

/// The mathematical value of a bound value.
pub ghost enum SqlValue {
    Text(Seq<char>),
    Time(Timestamp),
}

impl View for SqlParam {
    type V = SqlValue;

    open spec fn view(&self) -> SqlValue {
        match self {
            SqlParam::Text(s) => SqlValue::Text(s@),
            SqlParam::Time(t) => SqlValue::Time(*t),
        }
    }
}

/// A statement and the values for its placeholders, in order.
#[derive(Debug)]
pub struct SqlQuery {
    pub sql: String,
    pub params: Vec<SqlParam>,
}

/// The values of a run of bound values.
pub open spec fn param_values(ps: Seq<SqlParam>) -> Seq<SqlValue> {
    ps.map_values(|p: SqlParam| p@)
}

/// SQL that reads one device's records of one hour, oldest first.
pub open spec fn records_in_hour_sql() -> Seq<char> {
    "\n        SELECT id, device_id, temperature, humidity, timestamp, client_timestamp, created_at\n        FROM temperature_records\n        WHERE device_id = ? AND timestamp >= ? AND timestamp < ?\n        ORDER BY timestamp ASC\n        "@
}

/// The query for the records of `device_id` received in the hour that starts
/// at `hour_start`: from `hour_start` inclusive to one hour later exclusive.
/// `None` when the end of that hour is past the last instant `chrono` holds.
pub fn records_in_hour_query(device_id: &str, hour_start: Timestamp) -> (r: Option<SqlQuery>)
    requires
        hour_start.wf(),
    ensures
        r is None <==> hour_start.secs + SECONDS_PER_HOUR > MAX_TIMESTAMP_SECS,
        r matches Some(q) ==> {
            &&& q.sql@ == records_in_hour_sql()
            &&& param_values(q.params@) == seq![
                SqlValue::Text(device_id@),
                SqlValue::Time(hour_start),
                SqlValue::Time(spec_one_hour_later(hour_start)),
            ]
        },
{
    match chrono_add_hours(hour_start, 1) {
        None => None,
        Some(hour_end) => {
            let sql = String::from_str(
                "\n        SELECT id, device_id, temperature, humidity, timestamp, client_timestamp, created_at\n        FROM temperature_records\n        WHERE device_id = ? AND timestamp >= ? AND timestamp < ?\n        ORDER BY timestamp ASC\n        ",
            );
            let mut params: Vec<SqlParam> = Vec::new();
            params.push(SqlParam::Text(device_id.to_string()));
            params.push(SqlParam::Time(hour_start));
            params.push(SqlParam::Time(hour_end));
            assert(param_values(params@) =~= seq![
                SqlValue::Text(device_id@),
                SqlValue::Time(hour_start),
                SqlValue::Time(spec_one_hour_later(hour_start)),
            ]);
            Some(SqlQuery { sql, params })
        },
    }
}

/// A piece of SQL when `present`, nothing otherwise.
pub open spec fn sql_if(present: bool, piece: Seq<char>) -> Seq<char> {
    if present {
        piece
    } else {
        Seq::empty()
    }
}

/// The SQL of the hourly-summary query with the filters that are present.
pub open spec fn hourly_sql(by_device: bool, from: bool, until: bool) -> Seq<char> {
    "SELECT id, device_id, hour_start, avg_temp, min_temp, max_temp, sample_count, avg_humidity \n         FROM hourly_temperatures WHERE 1=1"@
        + sql_if(by_device, " AND device_id = ?"@) + sql_if(from, " AND hour_start >= ?"@) + sql_if(
        until,
        " AND hour_start < ?"@,
    ) + " ORDER BY hour_start DESC"@
}

/// The values of an optional text filter.
pub open spec fn text_values(v: Option<Seq<char>>) -> Seq<SqlValue> {
    match v {
        Some(s) => seq![SqlValue::Text(s)],
        None => Seq::empty(),
    }
}

/// The values of an optional time filter.
pub open spec fn time_values(v: Option<Timestamp>) -> Seq<SqlValue> {
    match v {
        Some(t) => seq![SqlValue::Time(t)],
        None => Seq::empty(),
    }
}

/// The view of an optional string.
pub open spec fn opt_text(v: Option<&str>) -> Option<Seq<char>> {
    match v {
        Some(s) => Some(s@),
        None => None,
    }
}

/// The hourly summaries, newest hour first, optionally only of `device_id`,
/// only of hours starting at or after `start_time`, and only of hours
/// starting before `end_time`.
pub fn hourly_temperatures_query(
    device_id: Option<&str>,
    start_time: Option<Timestamp>,
    end_time: Option<Timestamp>,
) -> (r: SqlQuery)
    ensures
        r.sql@ == hourly_sql(device_id is Some, start_time is Some, end_time is Some),
        param_values(r.params@) == text_values(opt_text(device_id)) + time_values(start_time)
            + time_values(end_time),
{
    let mut sql = String::from_str(
        "SELECT id, device_id, hour_start, avg_temp, min_temp, max_temp, sample_count, avg_humidity \n         FROM hourly_temperatures WHERE 1=1",
    );
    let mut params: Vec<SqlParam> = Vec::new();
    let ghost base = sql@;
    if let Some(d) = device_id {
        sql.append(" AND device_id = ?");
        params.push(SqlParam::Text(d.to_string()));
    }
    let ghost after_device = sql@;
    let ghost params_device = param_values(params@);
    assert(params_device =~= text_values(opt_text(device_id)));
    if let Some(st) = start_time {
        sql.append(" AND hour_start >= ?");
        params.push(SqlParam::Time(st));
    }
    let ghost after_start = sql@;
    assert(param_values(params@) =~= params_device + time_values(start_time));
    let ghost params_start = param_values(params@);
    if let Some(et) = end_time {
        sql.append(" AND hour_start < ?");
        params.push(SqlParam::Time(et));
    }
    assert(param_values(params@) =~= params_start + time_values(end_time));
    sql.append(" ORDER BY hour_start DESC");
    assert(sql@ =~= hourly_sql(device_id is Some, start_time is Some, end_time is Some));
    SqlQuery { sql, params }
}

/// Number of `?` placeholders in a SQL text.
pub open spec fn placeholder_count(s: Seq<char>) -> nat
    decreases s.len(),
{
    if s.len() == 0 {
        0
    } else {
        placeholder_count(s.drop_last()) + if s.last() == '?' {
            1nat
        } else {
            0nat
        }
    }
}

/// Placeholders of a concatenation are those of its parts.
pub proof fn lemma_placeholder_count_concat(a: Seq<char>, b: Seq<char>)
    ensures
        placeholder_count(a + b) == placeholder_count(a) + placeholder_count(b),
    decreases b.len(),
{
    if b.len() == 0 {
        assert(a + b =~= a);
    } else {
        lemma_placeholder_count_concat(a, b.drop_last());
        assert((a + b).drop_last() =~= a + b.drop_last());
    }
}

/// A text without `?` has no placeholders.
pub proof fn lemma_placeholder_count_none(s: Seq<char>)
    requires
        forall|i: int| 0 <= i < s.len() ==> s[i] != '?',
    ensures
        placeholder_count(s) == 0,
    decreases s.len(),
{
    if s.len() > 0 {
        lemma_placeholder_count_none(s.drop_last());
    }
}

/// `q` is the hourly-summary query for these filters.
pub open spec fn is_hourly_query(
    q: SqlQuery,
    device_id: Option<Seq<char>>,
    start_time: Option<Timestamp>,
    end_time: Option<Timestamp>,
) -> bool {
    &&& q.sql@ == hourly_sql(device_id is Some, start_time is Some, end_time is Some)
    &&& param_values(q.params@) == text_values(device_id) + time_values(start_time) + time_values(
        end_time,
    )
}

/// The view of an optional owned string.
pub open spec fn opt_string(v: Option<String>) -> Option<Seq<char>> {
    match v {
        Some(s) => Some(s@),
        None => None,
    }
}

/// Borrows the text of an optional string.
fn as_opt_str(v: &Option<String>) -> (r: Option<&str>)
    ensures
        opt_text(r) == opt_string(*v),
{
    match v {
        Some(d) => Some(d.as_str()),
        None => None,
    }
}

/// The hourly-summary query for `params`, where a missing end of the time
/// range means one hour after `now`.  `None` only when that default end is
/// past the last instant `chrono` holds.
pub fn hourly_query_with_default_end(params: &HourlyQueryParams, now: Timestamp) -> (r: Option<SqlQuery>)
    requires
        params.end_time is None ==> now.wf(),
    ensures
        params.end_time is Some ==> (r matches Some(q) && is_hourly_query(
            q,
            opt_string(params.device_id),
            params.start_time,
            params.end_time,
        )),
        params.end_time is None ==> (r is None <==> now.secs + SECONDS_PER_HOUR > MAX_TIMESTAMP_SECS),
        params.end_time is None ==> (r matches Some(q) ==> is_hourly_query(
            q,
            opt_string(params.device_id),
            params.start_time,
            Some(spec_one_hour_later(now)),
        )),
{
    let end = match params.end_time {
        Some(e) => e,
        None => match chrono_add_hours(now, 1) {
            Some(e) => e,
            None => {
                return None;
            },
        },
    };
    Some(hourly_temperatures_query(as_opt_str(&params.device_id), params.start_time, Some(end)))
}

/// The hourly-summary query for `params`; a missing end of the time range
/// means one hour after the current time, which is read only then.
pub fn hourly_data_query(params: &HourlyQueryParams) -> (r: Option<SqlQuery>)
    ensures
        params.end_time is Some ==> (r matches Some(q) && is_hourly_query(
            q,
            opt_string(params.device_id),
            params.start_time,
            params.end_time,
        )),
        params.end_time is None ==> (r matches Some(q) ==> exists|now: Timestamp|
            now.wf() && now.secs >= 0 && is_hourly_query(
                q,
                opt_string(params.device_id),
                params.start_time,
                Some(#[trigger] spec_one_hour_later(now)),
            )),
{
    match params.end_time {
        Some(end) => Some(
            hourly_temperatures_query(as_opt_str(&params.device_id), params.start_time, Some(end)),
        ),
        None => {
            let now = chrono_utc_now();
            hourly_query_with_default_end(params, now)
        },
    }
}

/// The SQL of the alert query with the filters that are present.
pub open spec fn alerts_sql(by_device: bool, from: bool, until: bool, resolved: Option<bool>) -> Seq<
    char,
> {
    "\n        SELECT id, device_id, alert_type, temperature, threshold, deviation,\n               start_time, end_time, duration_seconds, is_resolved, created_at\n        FROM temperature_alerts WHERE 1=1\n        "@
        + sql_if(by_device, " AND device_id = ?"@) + sql_if(from, " AND start_time >= ?"@) + sql_if(
        until,
        " AND start_time < ?"@,
    ) + match resolved {
        Some(true) => " AND is_resolved = 1"@,
        Some(false) => " AND is_resolved = 0"@,
        None => Seq::empty(),
    } + " ORDER BY start_time DESC"@
}

/// The alerts, latest start first, optionally only of `device_id`, only
/// those starting at or after `start_time`, only those starting before
/// `end_time`, and only resolved or only open ones.
pub fn alerts_query(
    device_id: Option<&str>,
    start_time: Option<Timestamp>,
    end_time: Option<Timestamp>,
    resolved: Option<bool>,
) -> (r: SqlQuery)
    ensures
        r.sql@ == alerts_sql(device_id is Some, start_time is Some, end_time is Some, resolved),
        param_values(r.params@) == text_values(opt_text(device_id)) + time_values(start_time)
            + time_values(end_time),
{
    let mut sql = String::from_str(
        "\n        SELECT id, device_id, alert_type, temperature, threshold, deviation,\n               start_time, end_time, duration_seconds, is_resolved, created_at\n        FROM temperature_alerts WHERE 1=1\n        ",
    );
    let mut params: Vec<SqlParam> = Vec::new();
    if let Some(d) = device_id {
        sql.append(" AND device_id = ?");
        params.push(SqlParam::Text(d.to_string()));
    }
    let ghost params_device = param_values(params@);
    assert(params_device =~= text_values(opt_text(device_id)));
    if let Some(st) = start_time {
        sql.append(" AND start_time >= ?");
        params.push(SqlParam::Time(st));
    }
    assert(param_values(params@) =~= params_device + time_values(start_time));
    let ghost params_start = param_values(params@);
    if let Some(et) = end_time {
        sql.append(" AND start_time < ?");
        params.push(SqlParam::Time(et));
    }
    assert(param_values(params@) =~= params_start + time_values(end_time));
    if let Some(r) = resolved {
        if r {
            sql.append(" AND is_resolved = 1");
        } else {
            sql.append(" AND is_resolved = 0");
        }
    }
    sql.append(" ORDER BY start_time DESC");
    assert(sql@ =~= alerts_sql(device_id is Some, start_time is Some, end_time is Some, resolved));
    SqlQuery { sql, params }
}



/// A text whose only `?` is its last character has one placeholder.
pub proof fn lemma_placeholder_count_one_at_end(s: Seq<char>)
    requires
        s.len() > 0,
        s.last() == '?',
        forall|i: int| 0 <= i < s.len() - 1 ==> s[i] != '?',
    ensures
        placeholder_count(s) == 1,
{
    lemma_placeholder_count_none(s.drop_last());
}

/// Placeholders of the optional pieces of a query.
proof fn lemma_placeholder_count_pieces()
    ensures
        placeholder_count(" AND device_id = ?"@) == 1,
        placeholder_count(" AND hour_start >= ?"@) == 1,
        placeholder_count(" AND hour_start < ?"@) == 1,
        placeholder_count(" AND start_time >= ?"@) == 1,
        placeholder_count(" AND start_time < ?"@) == 1,
        placeholder_count(" AND is_resolved = 1"@) == 0,
        placeholder_count(" AND is_resolved = 0"@) == 0,
        placeholder_count(" ORDER BY hour_start DESC"@) == 0,
        placeholder_count(" ORDER BY start_time DESC"@) == 0,
        placeholder_count(Seq::<char>::empty()) == 0,
        placeholder_count(
            "SELECT id, device_id, hour_start, avg_temp, min_temp, max_temp, sample_count, avg_humidity \n         FROM hourly_temperatures WHERE 1=1"@,
        ) == 0,
        placeholder_count(
            "\n        SELECT id, device_id, alert_type, temperature, threshold, deviation,\n               start_time, end_time, duration_seconds, is_resolved, created_at\n        FROM temperature_alerts WHERE 1=1\n        "@,
        ) == 0,
{
    reveal_strlit(" AND device_id = ?");
    reveal_strlit(" AND hour_start >= ?");
    reveal_strlit(" AND hour_start < ?");
    reveal_strlit(" AND start_time >= ?");
    reveal_strlit(" AND start_time < ?");
    reveal_strlit(" AND is_resolved = 1");
    reveal_strlit(" AND is_resolved = 0");
    reveal_strlit(" ORDER BY hour_start DESC");
    reveal_strlit(" ORDER BY start_time DESC");
    reveal_strlit(
        "SELECT id, device_id, hour_start, avg_temp, min_temp, max_temp, sample_count, avg_humidity \n         FROM hourly_temperatures WHERE 1=1",
    );
    reveal_strlit(
        "\n        SELECT id, device_id, alert_type, temperature, threshold, deviation,\n               start_time, end_time, duration_seconds, is_resolved, created_at\n        FROM temperature_alerts WHERE 1=1\n        ",
    );
    lemma_placeholder_count_one_at_end(" AND device_id = ?"@);
    lemma_placeholder_count_one_at_end(" AND hour_start >= ?"@);
    lemma_placeholder_count_one_at_end(" AND hour_start < ?"@);
    lemma_placeholder_count_one_at_end(" AND start_time >= ?"@);
    lemma_placeholder_count_one_at_end(" AND start_time < ?"@);
    lemma_placeholder_count_none(" AND is_resolved = 1"@);
    lemma_placeholder_count_none(" AND is_resolved = 0"@);
    lemma_placeholder_count_none(" ORDER BY hour_start DESC"@);
    lemma_placeholder_count_none(" ORDER BY start_time DESC"@);
    lemma_placeholder_count_none(
        "SELECT id, device_id, hour_start, avg_temp, min_temp, max_temp, sample_count, avg_humidity \n         FROM hourly_temperatures WHERE 1=1"@,
    );
    lemma_placeholder_count_none(
        "\n        SELECT id, device_id, alert_type, temperature, threshold, deviation,\n               start_time, end_time, duration_seconds, is_resolved, created_at\n        FROM temperature_alerts WHERE 1=1\n        "@,
    );
}

/// The records-of-an-hour query has one placeholder for each of its three
/// bound values.
pub proof fn law_records_in_hour_query_binds_every_placeholder()
    ensures
        placeholder_count(records_in_hour_sql()) == 3,
{
    let s = records_in_hour_sql();
    reveal_strlit(
        "\n        SELECT id, device_id, temperature, humidity, timestamp, client_timestamp, created_at\n        FROM temperature_records\n        WHERE device_id = ? AND timestamp >= ? AND timestamp < ?\n        ORDER BY timestamp ASC\n        ",
    );
    let a = s.subrange(0, 154);
    let b = s.subrange(154, 173);
    let c = s.subrange(173, 191);
    let d = s.subrange(191, s.len() as int);
    assert(s =~= a + b + c + d);
    lemma_placeholder_count_one_at_end(a);
    lemma_placeholder_count_one_at_end(b);
    lemma_placeholder_count_one_at_end(c);
    lemma_placeholder_count_none(d);
    lemma_placeholder_count_concat(a, b);
    lemma_placeholder_count_concat(a + b, c);
    lemma_placeholder_count_concat(a + b + c, d);
}

/// The hourly-summary query has exactly one placeholder for each value it
/// binds, whatever filters are present.
pub proof fn law_hourly_query_binds_every_placeholder(
    device_id: Option<Seq<char>>,
    start_time: Option<Timestamp>,
    end_time: Option<Timestamp>,
)
    ensures
        placeholder_count(hourly_sql(device_id is Some, start_time is Some, end_time is Some)) == (
        text_values(device_id) + time_values(start_time) + time_values(end_time)).len(),
{
    lemma_placeholder_count_pieces();
    let base = "SELECT id, device_id, hour_start, avg_temp, min_temp, max_temp, sample_count, avg_humidity \n         FROM hourly_temperatures WHERE 1=1"@;
    let p1 = sql_if(device_id is Some, " AND device_id = ?"@);
    let p2 = sql_if(start_time is Some, " AND hour_start >= ?"@);
    let p3 = sql_if(end_time is Some, " AND hour_start < ?"@);
    let tail = " ORDER BY hour_start DESC"@;
    lemma_placeholder_count_concat(base, p1);
    lemma_placeholder_count_concat(base + p1, p2);
    lemma_placeholder_count_concat(base + p1 + p2, p3);
    lemma_placeholder_count_concat(base + p1 + p2 + p3, tail);
}

/// The alert query has exactly one placeholder for each value it binds,
/// whatever filters are present.
pub proof fn law_alerts_query_binds_every_placeholder(
    device_id: Option<Seq<char>>,
    start_time: Option<Timestamp>,
    end_time: Option<Timestamp>,
    resolved: Option<bool>,
)
    ensures
        placeholder_count(
            alerts_sql(device_id is Some, start_time is Some, end_time is Some, resolved),
        ) == (text_values(device_id) + time_values(start_time) + time_values(end_time)).len(),
{
    lemma_placeholder_count_pieces();
    let base = "\n        SELECT id, device_id, alert_type, temperature, threshold, deviation,\n               start_time, end_time, duration_seconds, is_resolved, created_at\n        FROM temperature_alerts WHERE 1=1\n        "@;
    let p1 = sql_if(device_id is Some, " AND device_id = ?"@);
    let p2 = sql_if(start_time is Some, " AND start_time >= ?"@);
    let p3 = sql_if(end_time is Some, " AND start_time < ?"@);
    let p4: Seq<char> = match resolved {
        Some(true) => " AND is_resolved = 1"@,
        Some(false) => " AND is_resolved = 0"@,
        None => Seq::empty(),
    };
    let tail = " ORDER BY start_time DESC"@;
    lemma_placeholder_count_concat(base, p1);
    lemma_placeholder_count_concat(base + p1, p2);
    lemma_placeholder_count_concat(base + p1 + p2, p3);
    lemma_placeholder_count_concat(base + p1 + p2 + p3, p4);
    lemma_placeholder_count_concat(base + p1 + p2 + p3 + p4, tail);
}

/// The resolved filter of the alert query is fixed by `resolved` alone:
/// whatever other filters are present, asking for open alerts appends
/// ` AND is_resolved = 0` and asking for resolved ones appends
/// ` AND is_resolved = 1` to the query without that filter, just before
/// the ordering.
pub proof fn law_alerts_resolved_filter(by_device: bool, from: bool, until: bool)
    ensures
        ({
            let tail = " ORDER BY start_time DESC"@;
            let unfiltered = alerts_sql(by_device, from, until, None);
            let head = unfiltered.subrange(0, unfiltered.len() - tail.len());
            &&& unfiltered == head + tail
            &&& alerts_sql(by_device, from, until, Some(false)) == head + " AND is_resolved = 0"@
                + tail
            &&& alerts_sql(by_device, from, until, Some(true)) == head + " AND is_resolved = 1"@
                + tail
        }),
{
    let tail = " ORDER BY start_time DESC"@;
    let base = "\n        SELECT id, device_id, alert_type, temperature, threshold, deviation,\n               start_time, end_time, duration_seconds, is_resolved, created_at\n        FROM temperature_alerts WHERE 1=1\n        "@;
    let head = base + sql_if(by_device, " AND device_id = ?"@) + sql_if(from, " AND start_time >= ?"@)
        + sql_if(until, " AND start_time < ?"@);
    let unfiltered = alerts_sql(by_device, from, until, None);
    assert(unfiltered =~= head + tail);
    assert(unfiltered.subrange(0, unfiltered.len() - tail.len()) =~= head);
    assert(alerts_sql(by_device, from, until, Some(false)) =~= head + " AND is_resolved = 0"@ + tail);
    assert(alerts_sql(by_device, from, until, Some(true)) =~= head + " AND is_resolved = 1"@ + tail);
}

} // verus!
