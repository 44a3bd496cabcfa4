use cold_chain::models::HourlyQueryParams;
use cold_chain::queries::alerts_query;
use cold_chain::queries::hourly_data_query;
use cold_chain::queries::hourly_query_with_default_end;
use cold_chain::queries::hourly_temperatures_query;
use cold_chain::queries::records_in_hour_query;
use cold_chain::queries::SqlParam;
use cold_chain::queries::SqlQuery;
use cold_chain::time::Timestamp;
use cold_chain::time::MAX_TIMESTAMP_SECS;

fn ts(secs: i64, nanos: u32) -> Timestamp {
    Timestamp { secs, nanos }
}

fn text(p: &SqlParam) -> Option<&str> {
    match p {
        SqlParam::Text(s) => Some(s.as_str()),
        SqlParam::Time(_) => None,
    }
}

fn time(p: &SqlParam) -> Option<Timestamp> {
    match p {
        SqlParam::Time(t) => Some(*t),
        SqlParam::Text(_) => None,
    }
}

fn placeholders(q: &SqlQuery) -> usize {
    q.sql.chars().filter(|c| *c == '?').count()
}

const HOURLY_BASE: &str = "SELECT id, device_id, hour_start, avg_temp, min_temp, max_temp, sample_count, avg_humidity \n         FROM hourly_temperatures WHERE 1=1";

#[test]
fn records_in_hour_query_spans_one_hour() {
    let q = records_in_hour_query("fridge", ts(7200, 0)).unwrap();
    assert_eq!(
        q.sql,
        "\n        SELECT id, device_id, temperature, humidity, timestamp, client_timestamp, created_at\n        FROM temperature_records\n        WHERE device_id = ? AND timestamp >= ? AND timestamp < ?\n        ORDER BY timestamp ASC\n        "
    );
    assert_eq!(q.params.len(), 3);
    assert_eq!(text(&q.params[0]), Some("fridge"));
    assert_eq!(time(&q.params[1]), Some(ts(7200, 0)));
    assert_eq!(time(&q.params[2]), Some(ts(10800, 0)));
    assert_eq!(placeholders(&q), q.params.len());
}

#[test]
fn records_in_hour_query_past_the_last_hour_is_none() {
    let last_hour = MAX_TIMESTAMP_SECS - 3599;
    assert!(records_in_hour_query("d", ts(last_hour, 0)).is_none());
    assert!(records_in_hour_query("d", ts(last_hour - 3600, 0)).is_some());
}

#[test]
fn hourly_query_without_filters() {
    let q = hourly_temperatures_query(None, None, None);
    assert_eq!(q.sql, format!("{} ORDER BY hour_start DESC", HOURLY_BASE));
    assert!(q.params.is_empty());
}

#[test]
fn hourly_query_with_all_filters() {
    let q = hourly_temperatures_query(Some("truck"), Some(ts(100, 0)), Some(ts(200, 5)));
    assert_eq!(
        q.sql,
        format!(
            "{} AND device_id = ? AND hour_start >= ? AND hour_start < ? ORDER BY hour_start DESC",
            HOURLY_BASE
        )
    );
    assert_eq!(text(&q.params[0]), Some("truck"));
    assert_eq!(time(&q.params[1]), Some(ts(100, 0)));
    assert_eq!(time(&q.params[2]), Some(ts(200, 5)));
}

#[test]
fn hourly_query_with_only_an_end() {
    let q = hourly_temperatures_query(None, None, Some(ts(50, 0)));
    assert_eq!(q.sql, format!("{} AND hour_start < ? ORDER BY hour_start DESC", HOURLY_BASE));
    assert_eq!(q.params.len(), 1);
    assert_eq!(time(&q.params[0]), Some(ts(50, 0)));
}

#[test]
fn hourly_query_binds_every_placeholder_for_every_filter_set() {
    for mask in 0..8u32 {
        let d = if mask & 1 != 0 { Some("dev") } else { None };
        let s = if mask & 2 != 0 { Some(ts(1, 0)) } else { None };
        let e = if mask & 4 != 0 { Some(ts(2, 0)) } else { None };
        let q = hourly_temperatures_query(d, s, e);
        assert_eq!(placeholders(&q), q.params.len());
        assert_eq!(q.params.len(), mask.count_ones() as usize);
    }
}

#[test]
fn alerts_query_filters() {
    let base = "\n        SELECT id, device_id, alert_type, temperature, threshold, deviation,\n               start_time, end_time, duration_seconds, is_resolved, created_at\n        FROM temperature_alerts WHERE 1=1\n        ";
    let q = alerts_query(None, None, None, None);
    assert_eq!(q.sql, format!("{} ORDER BY start_time DESC", base));
    let q = alerts_query(Some("x"), Some(ts(3, 0)), None, Some(true));
    assert_eq!(
        q.sql,
        format!("{} AND device_id = ? AND start_time >= ? AND is_resolved = 1 ORDER BY start_time DESC", base)
    );
    assert_eq!(text(&q.params[0]), Some("x"));
    assert_eq!(time(&q.params[1]), Some(ts(3, 0)));
    let q = alerts_query(None, None, Some(ts(9, 0)), Some(false));
    assert_eq!(q.sql, format!("{} AND start_time < ? AND is_resolved = 0 ORDER BY start_time DESC", base));
    assert_eq!(q.params.len(), 1);
}

#[test]
fn alerts_query_binds_every_placeholder() {
    for mask in 0..8u32 {
        for resolved in [None, Some(true), Some(false)] {
            let d = if mask & 1 != 0 { Some("dev") } else { None };
            let s = if mask & 2 != 0 { Some(ts(1, 0)) } else { None };
            let e = if mask & 4 != 0 { Some(ts(2, 0)) } else { None };
            let q = alerts_query(d, s, e, resolved);
            assert_eq!(placeholders(&q), q.params.len());
        }
    }
}

#[test]
fn default_end_is_one_hour_after_now() {
    let params = HourlyQueryParams { device_id: Some("a".to_string()), start_time: None, end_time: None };
    let q = hourly_query_with_default_end(&params, ts(1000, 42)).unwrap();
    assert_eq!(q.sql, format!("{} AND device_id = ? AND hour_start < ? ORDER BY hour_start DESC", HOURLY_BASE));
    assert_eq!(time(&q.params[1]), Some(ts(4600, 42)));
}

#[test]
fn given_end_is_kept() {
    let params = HourlyQueryParams { device_id: None, start_time: Some(ts(10, 0)), end_time: Some(ts(20, 0)) };
    let q = hourly_query_with_default_end(&params, ts(1000, 0)).unwrap();
    assert_eq!(time(&q.params[0]), Some(ts(10, 0)));
    assert_eq!(time(&q.params[1]), Some(ts(20, 0)));
    let q = hourly_data_query(&params).unwrap();
    assert_eq!(time(&q.params[1]), Some(ts(20, 0)));
}

#[test]
fn default_end_past_the_range_is_none() {
    let params = HourlyQueryParams { device_id: None, start_time: None, end_time: None };
    assert!(hourly_query_with_default_end(&params, ts(MAX_TIMESTAMP_SECS - 10, 0)).is_none());
}

#[test]
fn hourly_data_query_defaults_the_end_from_the_clock() {
    let params = HourlyQueryParams { device_id: None, start_time: None, end_time: None };
    let before = std::time::SystemTime::now().duration_since(std::time::UNIX_EPOCH).unwrap().as_secs() as i64;
    let q = hourly_data_query(&params).unwrap();
    let after = std::time::SystemTime::now().duration_since(std::time::UNIX_EPOCH).unwrap().as_secs() as i64;
    let end = time(&q.params[0]).unwrap();
    assert!(before + 3600 <= end.secs && end.secs <= after + 3600);
}
